use std::collections::HashSet;

use dispatch_core::framework::permissions::{
    authorize, check_permissions, check_required_permissions_and_owners_only, member_fetched,
    permissions_computed, ChannelLookup, Denial, AccessStep, GuildFacts, Permissions, PlatformFacts,
};
use dispatch_core::framework::{Framework, FrameworkOptions};
use dispatch_core::message::{Message, User};
use dispatch_core::prefix::structs::{Hooks, PrefixContext, PrefixFrameworkOptions};

struct AccessHooks;

impl Hooks for AccessHooks {
    type Platform = ();
    type Data = ();
    type Action = u32;
    type Check = u32;
    type CommandErrorHandler = u32;
    type ErrorHandler = u32;
    type Listener = u32;
    type DynamicPrefix = u32;
    type Help = u32;
    type TrackerCell = ();
    type AllowedMentions = &'static str;
}

fn access_framework(owners: &[u64]) -> Framework<AccessHooks> {
    let owners: HashSet<u64> = owners.iter().copied().collect();
    Framework::new(
        "!".to_string(),
        1,
        FrameworkOptions {
            on_error: 0,
            listener: 0,
            owners,
            allowed_mentions: None,
            prefix_options: PrefixFrameworkOptions::default(),
        },
    )
}

fn access_message(author: u64, guild_id: Option<u64>) -> Message {
    let mut message = Message::blank();
    message.id = 10;
    message.channel_id = 20;
    message.guild_id = guild_id;
    message.author = User { id: author, name: "u".to_string(), bot: false };
    message
}

const MANAGE: u64 = 0b0100;
const KICK: u64 = 0b0010;

fn facts(channel: ChannelLookup, member_cached: bool, fetched: bool, effective: Option<u64>) -> PlatformFacts {
    PlatformFacts {
        guild: Some(GuildFacts { channel, member_cached }),
        member_fetched: fetched,
        effective: effective.map(Permissions::from_bits),
    }
}

#[test]
fn permissions_sets_behave_as_bit_sets() {
    assert!(Permissions::empty().is_empty());
    assert!(!Permissions::from_bits(MANAGE).is_empty());
    assert!(Permissions::from_bits(MANAGE | KICK).contains(Permissions::from_bits(KICK)));
    assert!(!Permissions::from_bits(MANAGE).contains(Permissions::from_bits(MANAGE | KICK)));
    assert!(Permissions::from_bits(MANAGE).contains(Permissions::empty()));
    assert!(Permissions::empty().contains(Permissions::empty()));
}

#[test]
fn empty_requirement_passes_without_any_lookup() {
    let framework = access_framework(&[]);
    let msg = access_message(5, Some(1));
    let ctx = PrefixContext { discord: &(), msg: &msg, framework: &framework, command: None, data: &() };
    assert_eq!(check_permissions(ctx, Permissions::empty(), None), AccessStep::Allowed);
    let nothing = PlatformFacts { guild: None, member_fetched: false, effective: None };
    assert!(authorize(ctx, Permissions::empty(), false, &nothing));
}

#[test]
fn direct_messages_pass_whatever_is_required() {
    let framework = access_framework(&[]);
    let msg = access_message(5, None);
    let ctx = PrefixContext { discord: &(), msg: &msg, framework: &framework, command: None, data: &() };
    assert_eq!(check_permissions(ctx, Permissions::from_bits(MANAGE), None), AccessStep::Allowed);
}

#[test]
fn unknown_guild_denies() {
    let framework = access_framework(&[]);
    let msg = access_message(5, Some(1));
    let ctx = PrefixContext { discord: &(), msg: &msg, framework: &framework, command: None, data: &() };
    assert_eq!(
        check_permissions(ctx, Permissions::from_bits(MANAGE), None),
        AccessStep::Denied(Denial::GuildUnknown)
    );
}

#[test]
fn failed_channel_lookup_denies_without_error() {
    let framework = access_framework(&[]);
    let msg = access_message(5, Some(1));
    let ctx = PrefixContext { discord: &(), msg: &msg, framework: &framework, command: None, data: &() };
    let required = Permissions::from_bits(MANAGE);
    let unknown = GuildFacts { channel: ChannelLookup::Unknown, member_cached: true };
    let other = GuildFacts { channel: ChannelLookup::NotGuildChannel, member_cached: true };
    assert_eq!(check_permissions(ctx, required, Some(unknown)), AccessStep::Denied(Denial::ChannelUnknown));
    assert_eq!(check_permissions(ctx, required, Some(other)), AccessStep::Denied(Denial::ChannelNotInGuild));
    assert!(!authorize(ctx, required, false, &facts(ChannelLookup::Unknown, true, true, Some(u64::MAX))));
    assert!(!authorize(ctx, required, false, &facts(ChannelLookup::NotGuildChannel, true, true, Some(u64::MAX))));
}

#[test]
fn cached_member_goes_straight_to_the_permissions() {
    let framework = access_framework(&[]);
    let msg = access_message(5, Some(1));
    let ctx = PrefixContext { discord: &(), msg: &msg, framework: &framework, command: None, data: &() };
    let required = Permissions::from_bits(MANAGE);
    let cached = GuildFacts { channel: ChannelLookup::GuildChannel, member_cached: true };
    let uncached = GuildFacts { channel: ChannelLookup::GuildChannel, member_cached: false };
    assert_eq!(check_permissions(ctx, required, Some(cached)), AccessStep::ComputePermissions);
    assert_eq!(check_permissions(ctx, required, Some(uncached)), AccessStep::FetchMember);
    assert_eq!(member_fetched(true), AccessStep::ComputePermissions);
    assert_eq!(member_fetched(false), AccessStep::Denied(Denial::MemberUnknown));
}

#[test]
fn computed_permissions_must_hold_all_required_bits() {
    let required = Permissions::from_bits(MANAGE | KICK);
    assert_eq!(
        permissions_computed(required, Some(Permissions::from_bits(MANAGE | KICK | 1))),
        AccessStep::Allowed
    );
    assert_eq!(
        permissions_computed(required, Some(Permissions::from_bits(MANAGE))),
        AccessStep::Denied(Denial::PermissionsMissing)
    );
    assert_eq!(permissions_computed(required, None), AccessStep::Denied(Denial::PermissionsUnknown));
}

#[test]
fn owners_only_rejects_everyone_else_whatever_their_permissions() {
    let framework = access_framework(&[1, 2]);
    let stranger = access_message(5, Some(1));
    let owner = access_message(2, Some(1));
    let all = facts(ChannelLookup::GuildChannel, true, true, Some(u64::MAX));

    let ctx = PrefixContext { discord: &(), msg: &stranger, framework: &framework, command: None, data: &() };
    assert_eq!(
        check_required_permissions_and_owners_only(ctx, Permissions::empty(), true, all.guild),
        AccessStep::Denied(Denial::NotOwner)
    );
    assert!(!authorize(ctx, Permissions::empty(), true, &all));
    assert!(!authorize(ctx, Permissions::from_bits(MANAGE), true, &all));
    assert!(authorize(ctx, Permissions::from_bits(MANAGE), false, &all));

    let ctx = PrefixContext { discord: &(), msg: &owner, framework: &framework, command: None, data: &() };
    assert!(authorize(ctx, Permissions::empty(), true, &all));
    assert!(authorize(ctx, Permissions::from_bits(MANAGE), true, &all));
    // owners still need the permissions that the command asks for
    let none = facts(ChannelLookup::GuildChannel, true, true, Some(0));
    assert!(!authorize(ctx, Permissions::from_bits(MANAGE), true, &none));
}

#[test]
fn authorize_follows_the_facts_step_by_step() {
    let framework = access_framework(&[]);
    let msg = access_message(5, Some(1));
    let ctx = PrefixContext { discord: &(), msg: &msg, framework: &framework, command: None, data: &() };
    let required = Permissions::from_bits(KICK);
    // the member is not cached: the fetch decides whether permissions are looked at
    assert!(authorize(ctx, required, false, &facts(ChannelLookup::GuildChannel, false, true, Some(KICK))));
    assert!(!authorize(ctx, required, false, &facts(ChannelLookup::GuildChannel, false, false, Some(KICK))));
    // a cached member needs no fetch
    assert!(authorize(ctx, required, false, &facts(ChannelLookup::GuildChannel, true, false, Some(KICK))));
    assert!(!authorize(ctx, required, false, &facts(ChannelLookup::GuildChannel, true, false, None)));
    assert!(!authorize(ctx, required, false, &facts(ChannelLookup::GuildChannel, true, false, Some(MANAGE))));
    let no_guild = PlatformFacts { guild: None, member_fetched: true, effective: Some(Permissions::from_bits(KICK)) };
    assert!(!authorize(ctx, required, false, &no_guild));
}
