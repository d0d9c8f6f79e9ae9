//! Who may run a command: owners, and members with the permissions that it asks for.

use vstd::prelude::*;
use crate::prefix::structs::{Hooks, PrefixContext};

verus! {

/// A set of platform permissions, one bit each.
#[derive(Clone, Copy, Debug, PartialEq, Eq, Structural)]
pub struct Permissions {
    pub bits: u64,
}

impl Permissions {
    /// Whether the set holds no permission.
    pub open spec fn spec_is_empty(self) -> bool {
        self.bits == 0
    }

    /// Whether every permission of `other` is in this set.
    pub open spec fn spec_contains(self, other: Permissions) -> bool {
        self.bits & other.bits == other.bits
    }

    /// The set with no permission in it.
    pub fn empty() -> (none: Permissions)
        ensures
            none.bits == 0,
            none.spec_is_empty(),
    {
        Permissions { bits: 0 }
    }

    /// The set whose permissions are the bits set in `bits`.
    pub fn from_bits(bits: u64) -> (set: Permissions)
        ensures
            set.bits == bits,
    {
        Permissions { bits }
    }

    /// Whether the set holds no permission.
    pub fn is_empty(&self) -> (none: bool)
        ensures
            none == self.spec_is_empty(),
    {
        self.bits == 0
    }

    /// Whether every permission of `other` is in this set.
    pub fn contains(&self, other: Permissions) -> (all: bool)
        ensures
            all == self.spec_contains(other),
    {
        self.bits & other.bits == other.bits
    }
}

/// What the local cache says of the channel that a message was sent in.
#[derive(Clone, Copy, Debug, PartialEq, Eq, Structural)]
pub enum ChannelLookup {
    /// The guild has no such channel in the cache.
    Unknown,
    /// The cache has the channel, but it is not a channel of a guild.
    NotGuildChannel,
    /// The cache has the channel, and it is a channel of the guild.
    GuildChannel,
}

/// What the local cache says of the guild that a message was sent in.
#[derive(Clone, Copy, Debug, PartialEq, Eq, Structural)]
pub struct GuildFacts {
    /// What the cache says of the message's channel.
    pub channel: ChannelLookup,
    /// Whether the cache has the author as a member of the guild.
    pub member_cached: bool,
}

/// Everything that the platform can say to the access check, asked or not.
#[derive(Clone, Copy, Debug, PartialEq, Eq, Structural)]
pub struct PlatformFacts {
    /// What the cache says of the guild; `None` where it does not have the guild.
    pub guild: Option<GuildFacts>,
    /// Whether asking the platform for the author as a member succeeds.
    pub member_fetched: bool,
    /// The permissions that the platform works out for the author in the channel;
    /// `None` where working them out fails.
    pub effective: Option<Permissions>,
}

/// Why an invocation was turned down.
#[derive(Clone, Copy, Debug, PartialEq, Eq, Structural)]
pub enum Denial {
    /// The command is for owners and the author is none.
    NotOwner,
    /// The message is from a guild that the cache does not have.
    GuildUnknown,
    /// The cache does not have the message's channel.
    ChannelUnknown,
    /// The message's channel is not a channel of a guild. This should not happen, and
    /// is worth a warning.
    ChannelNotInGuild,
    /// The author is not in the cache and could not be fetched either.
    MemberUnknown,
    /// The author's permissions could not be worked out.
    PermissionsUnknown,
    /// The author lacks a permission that the command asks for.
    PermissionsMissing,
}

/// Where the access check stands: at a decision, or at a question to the platform.
#[derive(Clone, Copy, Debug, PartialEq, Eq, Structural)]
pub enum AccessStep {
    /// The author may run the command.
    Allowed,
    /// The author may not.
    Denied(Denial),
    /// The author is not in the cache: ask the platform for the member, and report
    /// with [`member_fetched`].
    FetchMember,
    /// Work out the author's permissions in the channel, and report with
    /// [`permissions_computed`].
    ComputePermissions,
}

/// Where the permission check stands once the cache has been read.
pub open spec fn permission_step(
    required: Permissions,
    guild_id: Option<u64>,
    guild: Option<GuildFacts>,
) -> AccessStep {
    if required.spec_is_empty() {
        AccessStep::Allowed
    } else if guild_id is None {
        AccessStep::Allowed
    } else {
        match guild {
            None => AccessStep::Denied(Denial::GuildUnknown),
            Some(facts) => match facts.channel {
                ChannelLookup::Unknown => AccessStep::Denied(Denial::ChannelUnknown),
                ChannelLookup::NotGuildChannel => AccessStep::Denied(Denial::ChannelNotInGuild),
                ChannelLookup::GuildChannel => if facts.member_cached {
                    AccessStep::ComputePermissions
                } else {
                    AccessStep::FetchMember
                },
            },
        }
    }
}

/// Where the check stands once the platform has been asked for the member.
pub open spec fn fetch_step(found: bool) -> AccessStep {
    if found {
        AccessStep::ComputePermissions
    } else {
        AccessStep::Denied(Denial::MemberUnknown)
    }
}

/// The decision once the author's permissions have been worked out, or could not be.
pub open spec fn compute_step(required: Permissions, effective: Option<Permissions>) -> AccessStep {
    match effective {
        Some(held) => if held.spec_contains(required) {
            AccessStep::Allowed
        } else {
            AccessStep::Denied(Denial::PermissionsMissing)
        },
        None => AccessStep::Denied(Denial::PermissionsUnknown),
    }
}

/// Whether a command that asks for `required` is denied to the author of a message
/// from `guild_id`, and why, given what the platform has to say.
///
/// A command that asks for nothing is open to all, and so is every command outside
/// guilds. In a guild, every answer that the platform fails to give denies.
pub open spec fn permission_denial(
    required: Permissions,
    guild_id: Option<u64>,
    facts: PlatformFacts,
) -> Option<Denial> {
    if required.spec_is_empty() || guild_id is None {
        None
    } else if facts.guild is None {
        Some(Denial::GuildUnknown)
    } else if facts.guild->0.channel is Unknown {
        Some(Denial::ChannelUnknown)
    } else if facts.guild->0.channel is NotGuildChannel {
        Some(Denial::ChannelNotInGuild)
    } else if !facts.guild->0.member_cached && !facts.member_fetched {
        Some(Denial::MemberUnknown)
    } else if facts.effective is None {
        Some(Denial::PermissionsUnknown)
    } else if !facts.effective->0.spec_contains(required) {
        Some(Denial::PermissionsMissing)
    } else {
        None
    }
}

/// Whether an invocation is denied, and why: first for the author not being an owner
/// where owners are asked for, then for want of permissions.
pub open spec fn denial(
    is_owner: bool,
    owners_only: bool,
    required: Permissions,
    guild_id: Option<u64>,
    facts: PlatformFacts,
) -> Option<Denial> {
    if owners_only && !is_owner {
        Some(Denial::NotOwner)
    } else {
        permission_denial(required, guild_id, facts)
    }
}

/// Whether the author of the context's message is one of the framework's owners.
pub open spec fn is_owner<K: Hooks>(ctx: PrefixContext<'_, K>) -> bool {
    ctx.framework.spec_options().owners@.contains(ctx.msg.author.id)
}

/// Starts the permission check for the author of the context's message, with what the
/// cache says of the guild.
pub fn check_permissions<K: Hooks>(
    ctx: PrefixContext<'_, K>,
    required_permissions: Permissions,
    guild: Option<GuildFacts>,
) -> (step: AccessStep)
    ensures
        step == permission_step(required_permissions, ctx.msg.guild_id, guild),
{
    if required_permissions.is_empty() {
        return AccessStep::Allowed;
    }
    if ctx.msg.guild_id.is_none() {
        // no permission checks in direct messages
        return AccessStep::Allowed;
    }
    let facts = match guild {
        Some(facts) => facts,
        None => {
            return AccessStep::Denied(Denial::GuildUnknown);
        },
    };
    match facts.channel {
        ChannelLookup::GuildChannel => {},
        ChannelLookup::NotGuildChannel => {
            return AccessStep::Denied(Denial::ChannelNotInGuild);
        },
        ChannelLookup::Unknown => {
            return AccessStep::Denied(Denial::ChannelUnknown);
        },
    }
    if facts.member_cached {
        AccessStep::ComputePermissions
    } else {
        AccessStep::FetchMember
    }
}

/// Goes on after [`AccessStep::FetchMember`]: `found` says whether the platform had the
/// member.
pub fn member_fetched(found: bool) -> (step: AccessStep)
    ensures
        step == fetch_step(found),
{
    if found {
        AccessStep::ComputePermissions
    } else {
        AccessStep::Denied(Denial::MemberUnknown)
    }
}

/// Decides after [`AccessStep::ComputePermissions`]: `effective` are the author's
/// permissions in the channel, or `None` where they could not be worked out.
pub fn permissions_computed(required_permissions: Permissions, effective: Option<Permissions>) -> (step:
    AccessStep)
    ensures
        step == compute_step(required_permissions, effective),
        step is Allowed || step is Denied,
{
    match effective {
        Some(held) => if held.contains(required_permissions) {
            AccessStep::Allowed
        } else {
            AccessStep::Denied(Denial::PermissionsMissing)
        },
        None => AccessStep::Denied(Denial::PermissionsUnknown),
    }
}

/// Starts the whole check for the author of the context's message: owners first, then
/// permissions.
pub fn check_required_permissions_and_owners_only<K: Hooks>(
    ctx: PrefixContext<'_, K>,
    required_permissions: Permissions,
    owners_only: bool,
    guild: Option<GuildFacts>,
) -> (step: AccessStep)
    ensures
        step == if owners_only && !is_owner(ctx) {
            AccessStep::Denied(Denial::NotOwner)
        } else {
            permission_step(required_permissions, ctx.msg.guild_id, guild)
        },
{
    broadcast use vstd::std_specs::hash::group_hash_axioms;

    if owners_only && !ctx.framework.options().owners.contains(&ctx.msg.author.id) {
        return AccessStep::Denied(Denial::NotOwner);
    }
    check_permissions(ctx, required_permissions, guild)
}

/// Where asking the platform step by step ends: the last step taken when each question
/// is answered from `facts`.
pub open spec fn last_step(
    is_owner: bool,
    owners_only: bool,
    required: Permissions,
    guild_id: Option<u64>,
    facts: PlatformFacts,
) -> AccessStep {
    let first = if owners_only && !is_owner {
        AccessStep::Denied(Denial::NotOwner)
    } else {
        permission_step(required, guild_id, facts.guild)
    };
    let second = if first is FetchMember {
        fetch_step(facts.member_fetched)
    } else {
        first
    };
    if second is ComputePermissions {
        compute_step(required, facts.effective)
    } else {
        second
    }
}

/// The whole check, step by step, for a caller that has all the platform's answers at
/// hand: every question that comes up is answered from `facts`.
pub fn check_with_facts<K: Hooks>(
    ctx: PrefixContext<'_, K>,
    required_permissions: Permissions,
    owners_only: bool,
    facts: &PlatformFacts,
) -> (step: AccessStep)
    ensures
        step == last_step(is_owner(ctx), owners_only, required_permissions, ctx.msg.guild_id, *facts),
        step == match denial(
            is_owner(ctx),
            owners_only,
            required_permissions,
            ctx.msg.guild_id,
            *facts,
        ) {
            None => AccessStep::Allowed,
            Some(why) => AccessStep::Denied(why),
        },
{
    let mut step = check_required_permissions_and_owners_only(
        ctx,
        required_permissions,
        owners_only,
        facts.guild,
    );
    if let AccessStep::FetchMember = step {
        step = member_fetched(facts.member_fetched);
    }
    if let AccessStep::ComputePermissions = step {
        step = permissions_computed(required_permissions, facts.effective);
    }
    proof {
        lemma_steps_reach_denial(
            is_owner(ctx),
            owners_only,
            required_permissions,
            ctx.msg.guild_id,
            *facts,
        );
    }
    step
}

/// Whether the author of the context's message may run a command that asks for
/// `required_permissions` and is, or is not, for owners only, given all that the
/// platform has to say.
pub fn authorize<K: Hooks>(
    ctx: PrefixContext<'_, K>,
    required_permissions: Permissions,
    owners_only: bool,
    facts: &PlatformFacts,
) -> (allowed: bool)
    ensures
        allowed == (denial(
            is_owner(ctx),
            owners_only,
            required_permissions,
            ctx.msg.guild_id,
            *facts,
        ) is None),
{
    match check_with_facts(ctx, required_permissions, owners_only, facts) {
        AccessStep::Allowed => true,
        _ => false,
    }
}

/// Asking step by step comes to the same end as deciding at once: it ends allowed
/// exactly where nothing denies, and otherwise denied for the same reason.
pub proof fn lemma_steps_reach_denial(
    is_owner: bool,
    owners_only: bool,
    required: Permissions,
    guild_id: Option<u64>,
    facts: PlatformFacts,
)
    ensures
        last_step(is_owner, owners_only, required, guild_id, facts) == match denial(
            is_owner,
            owners_only,
            required,
            guild_id,
            facts,
        ) {
            None => AccessStep::Allowed,
            Some(why) => AccessStep::Denied(why),
        },
{
}

/// A command for owners only is denied to everyone who is not an owner, whatever the
/// permissions asked for or held and whatever the platform says.
pub proof fn lemma_owners_only_rejects(
    owners_only: bool,
    required: Permissions,
    guild_id: Option<u64>,
    facts: PlatformFacts,
)
    requires
        owners_only,
    ensures
        denial(false, owners_only, required, guild_id, facts) == Some(Denial::NotOwner),
{
}

/// In a guild, a command that asks for any permission is denied where the message's
/// channel cannot be found as a channel of the guild. The denial is an answer like any
/// other, not a failure.
pub proof fn lemma_unresolved_channel_denies(
    is_owner: bool,
    owners_only: bool,
    required: Permissions,
    guild_id: Option<u64>,
    facts: PlatformFacts,
)
    requires
        !required.spec_is_empty(),
        guild_id is Some,
        facts.guild is None || !(facts.guild->0.channel is GuildChannel),
    ensures
        denial(is_owner, owners_only, required, guild_id, facts) is Some,
        last_step(is_owner, owners_only, required, guild_id, facts) is Denied,
{
}

/// A command that asks for no permission, and every command in a direct message, is
/// open to whoever passes the owners' check.
pub proof fn lemma_nothing_asked_allows(
    is_owner: bool,
    owners_only: bool,
    required: Permissions,
    guild_id: Option<u64>,
    facts: PlatformFacts,
)
    requires
        required.spec_is_empty() || guild_id is None,
        !owners_only || is_owner,
    ensures
        denial(is_owner, owners_only, required, guild_id, facts) is None,
{
}

} // verus!
