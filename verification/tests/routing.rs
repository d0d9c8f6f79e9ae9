use std::collections::HashSet;

use dispatch_core::framework::{Framework, FrameworkOptions};
use dispatch_core::message::{Message, User};
use dispatch_core::prefix::resolve::{dynamic_prefix_answered, strip_prefix, Trigger};
use dispatch_core::prefix::route::find_command;
use dispatch_core::prefix::structs::{
    Hooks, NoHooks, Prefix, PrefixCommand, PrefixCommandMeta, PrefixCommandOptions,
    PrefixFrameworkOptions,
};
use dispatch_core::text::{is_whitespace, push_decimal, same_word, to_chars};

struct RouteHooks;

impl Hooks for RouteHooks {
    type Platform = ();
    type Data = ();
    type Action = u32;
    type Check = u32;
    type CommandErrorHandler = u32;
    type ErrorHandler = u32;
    type Listener = u32;
    type DynamicPrefix = u32;
    type Help = u32;
    type TrackerCell = ();
    type AllowedMentions = &'static str;
}

const BOT: u64 = 1234567890;

fn command(name: &'static str, aliases: &[&'static str], action: u32) -> PrefixCommandMeta<RouteHooks> {
    let mut options = PrefixCommandOptions::default();
    options.aliases = aliases.to_vec();
    PrefixCommandMeta {
        command: PrefixCommand { name, action, options },
        category: None,
        subcommands: Vec::new(),
    }
}

fn with_subcommands(
    mut parent: PrefixCommandMeta<RouteHooks>,
    children: Vec<PrefixCommandMeta<RouteHooks>>,
) -> PrefixCommandMeta<RouteHooks> {
    parent.subcommands = children;
    parent
}

fn framework_with(
    first_prefix: &'static str,
    mut prefix_options: PrefixFrameworkOptions<RouteHooks>,
) -> Framework<RouteHooks> {
    prefix_options.additional_prefixes.insert(0, Prefix::Literal(first_prefix));
    Framework::new(
        first_prefix.to_string(),
        99,
        FrameworkOptions {
            on_error: 0,
            listener: 0,
            owners: HashSet::new(),
            allowed_mentions: None,
            prefix_options,
        },
    )
}

fn said(author: u64, content: &str) -> Message {
    let mut message = Message::blank();
    message.id = 500;
    message.channel_id = 20;
    message.author = User { id: author, name: "u".to_string(), bot: false };
    message.content = content.to_string();
    message
}

fn stripped<'a>(trigger: Trigger<'a>) -> Option<&'a str> {
    match trigger {
        Trigger::Stripped(rest) => Some(rest),
        Trigger::AskDynamic => panic!("the dynamic rule was asked"),
        Trigger::Unaddressed => None,
    }
}

#[test]
fn literal_prefix_is_stripped_and_the_rest_trimmed() {
    let framework = framework_with("~", PrefixFrameworkOptions::default());
    assert_eq!(stripped(strip_prefix(&framework, Some(BOT), &said(5, "~ping"))), Some("ping"));
    assert_eq!(stripped(strip_prefix(&framework, Some(BOT), &said(5, "~  \t ping  x "))), Some("ping  x "));
    assert_eq!(stripped(strip_prefix(&framework, Some(BOT), &said(5, "~"))), Some(""));
    assert_eq!(stripped(strip_prefix(&framework, Some(BOT), &said(5, " ~ping"))), None);
    assert_eq!(stripped(strip_prefix(&framework, Some(BOT), &said(5, "ping"))), None);
    assert_eq!(stripped(strip_prefix(&framework, Some(BOT), &said(5, ""))), None);
}

#[test]
fn the_name_of_the_framework_is_no_prefix_rule() {
    let framework: Framework<RouteHooks> = Framework::new(
        "~".to_string(),
        99,
        FrameworkOptions {
            on_error: 0,
            listener: 0,
            owners: HashSet::new(),
            allowed_mentions: None,
            prefix_options: PrefixFrameworkOptions::default(),
        },
    );
    assert_eq!(framework.prefix(), "~");
    assert!(matches!(strip_prefix(&framework, Some(BOT), &said(5, "~ping")), Trigger::Unaddressed));
    assert_eq!(stripped(strip_prefix(&framework, Some(BOT), &said(5, "<@1234567890> ping"))), Some("ping"));
}

#[test]
fn additional_prefixes_are_tried_in_registration_order() {
    let mut options = PrefixFrameworkOptions::default();
    options.additional_prefixes = vec![
        Prefix::Literal("!"),
        Prefix::Literal("!!"),
        Prefix::Literal("hey bot,"),
    ];
    let framework = framework_with("~", options);
    // "!" stands before "!!" and so decides
    assert_eq!(stripped(strip_prefix(&framework, Some(BOT), &said(5, "!!ping"))), Some("!ping"));
    assert_eq!(stripped(strip_prefix(&framework, Some(BOT), &said(5, "hey bot, ping"))), Some("ping"));
    assert_eq!(stripped(strip_prefix(&framework, Some(BOT), &said(5, "Hey bot, ping"))), None);
}

#[test]
fn regex_prefix_strips_the_whole_match_at_the_start_only() {
    let mut options = PrefixFrameworkOptions::default();
    options.additional_prefixes = vec![
        Prefix::Regex(regex::Regex::new("(?i)(yo|hey) bot[,!]?").unwrap()),
        Prefix::Literal("?"),
    ];
    let framework = framework_with("~", options);
    assert_eq!(stripped(strip_prefix(&framework, Some(BOT), &said(5, "Hey Bot, ping 1"))), Some("ping 1"));
    assert_eq!(stripped(strip_prefix(&framework, Some(BOT), &said(5, "yo bot!ping"))), Some("ping"));
    // a match further in does not count
    assert_eq!(stripped(strip_prefix(&framework, Some(BOT), &said(5, "well, hey bot ping"))), None);
    // the next prefix gets its turn after a regex that does not fit
    assert_eq!(stripped(strip_prefix(&framework, Some(BOT), &said(5, "?hey bot"))), Some("hey bot"));
}

#[test]
fn regex_prefix_handles_text_beyond_ascii() {
    let mut options = PrefixFrameworkOptions::default();
    options.additional_prefixes = vec![Prefix::Regex(regex::Regex::new("бот[,:]").unwrap())];
    let framework = framework_with("→", options);
    assert_eq!(
        stripped(strip_prefix(&framework, Some(BOT), &said(5, "бот:\u{2003}привет мир"))),
        Some("привет мир")
    );
    assert_eq!(stripped(strip_prefix(&framework, Some(BOT), &said(5, "→\u{a0}пинг"))), Some("пинг"));
}

#[test]
fn literal_prefix_wins_over_mention() {
    let mut options = PrefixFrameworkOptions::default();
    options.additional_prefixes = vec![Prefix::Literal("<@")];
    let framework = framework_with("~", options);
    // the text is a mention of the bot as well, but the registered prefix decides
    assert_eq!(
        stripped(strip_prefix(&framework, Some(BOT), &said(5, "<@1234567890> ping"))),
        Some("1234567890> ping")
    );
}

#[test]
fn mention_counts_as_prefix_when_enabled() {
    let framework = framework_with("~", PrefixFrameworkOptions::default());
    assert_eq!(stripped(strip_prefix(&framework, Some(BOT), &said(5, "<@1234567890> ping"))), Some("ping"));
    assert_eq!(stripped(strip_prefix(&framework, Some(BOT), &said(5, "<@!1234567890>ping me"))), Some("ping me"));
    assert_eq!(stripped(strip_prefix(&framework, Some(BOT), &said(5, "<@123456789> ping"))), None);
    assert_eq!(stripped(strip_prefix(&framework, Some(BOT), &said(5, "<@12345678901> ping"))), None);
    assert_eq!(stripped(strip_prefix(&framework, Some(BOT), &said(5, "<@!!1234567890> ping"))), None);
    assert_eq!(stripped(strip_prefix(&framework, Some(BOT), &said(5, "<@1234567890 ping"))), None);
    // the bot does not know its id yet
    assert_eq!(stripped(strip_prefix(&framework, None, &said(5, "<@1234567890> ping"))), None);

    let mut options = PrefixFrameworkOptions::default();
    options.mention_as_prefix = false;
    let framework = framework_with("~", options);
    assert_eq!(stripped(strip_prefix(&framework, Some(BOT), &said(5, "<@1234567890> ping"))), None);
}

#[test]
fn mention_of_user_zero_is_written_with_one_digit() {
    let framework = framework_with("~", PrefixFrameworkOptions::default());
    assert_eq!(stripped(strip_prefix(&framework, Some(0), &said(5, "<@0> ping"))), Some("ping"));
    assert_eq!(
        stripped(strip_prefix(&framework, Some(u64::MAX), &said(5, "<@18446744073709551615>x"))),
        Some("x")
    );
}

#[test]
fn own_messages_are_never_commands_unless_allowed() {
    let mut options = PrefixFrameworkOptions::default();
    options.additional_prefixes = vec![Prefix::Literal("!")];
    options.dynamic_prefix = Some(1);
    let framework = framework_with("~", options);
    assert!(matches!(strip_prefix(&framework, Some(BOT), &said(BOT, "~ping")), Trigger::Unaddressed));
    assert!(matches!(strip_prefix(&framework, Some(BOT), &said(BOT, "!ping")), Trigger::Unaddressed));
    assert!(matches!(strip_prefix(&framework, Some(BOT), &said(BOT, "nothing")), Trigger::Unaddressed));
    // before the bot knows its id it cannot tell
    assert_eq!(stripped(strip_prefix(&framework, None, &said(BOT, "~ping"))), Some("ping"));

    let mut options = PrefixFrameworkOptions::default();
    options.execute_self_messages = true;
    let framework = framework_with("~", options);
    assert_eq!(stripped(strip_prefix(&framework, Some(BOT), &said(BOT, "~ping"))), Some("ping"));
}

#[test]
fn dynamic_rule_is_asked_last_and_only_if_configured() {
    let mut options = PrefixFrameworkOptions::default();
    options.dynamic_prefix = Some(1);
    let framework = framework_with("~", options);
    assert!(matches!(strip_prefix(&framework, Some(BOT), &said(5, "$ping")), Trigger::AskDynamic));
    assert_eq!(stripped(strip_prefix(&framework, Some(BOT), &said(5, "~ping"))), Some("ping"));
    assert_eq!(stripped(strip_prefix(&framework, Some(BOT), &said(5, "<@1234567890> ping"))), Some("ping"));

    assert_eq!(dynamic_prefix_answered(Some("  ping it")), Some("ping it"));
    assert_eq!(dynamic_prefix_answered(Some("")), Some(""));
    assert_eq!(dynamic_prefix_answered(None), None);
}

#[test]
fn routing_is_case_insensitive_when_configured() {
    let commands = vec![command("ping", &["p", "Pong"], 1), command("help", &[], 2)];
    let (found, args) = find_command(&commands, "Ping", true).expect("found");
    assert_eq!(found.command.action, 1);
    assert_eq!(args, "");
    assert_eq!(find_command(&commands, "PING now", true).unwrap().0.command.action, 1);
    assert_eq!(find_command(&commands, "P", true).unwrap().0.command.action, 1);
    assert_eq!(find_command(&commands, "pONG", true).unwrap().0.command.action, 1);
    assert_eq!(find_command(&commands, "HELP", true).unwrap().0.command.action, 2);
    // with case respected only the exact spelling answers
    assert!(find_command(&commands, "Ping", false).is_none());
    assert!(find_command(&commands, "pong", false).is_none());
    assert_eq!(find_command(&commands, "Pong", false).unwrap().0.command.action, 1);
    assert_eq!(find_command(&commands, "ping", false).unwrap().0.command.action, 1);
}

#[test]
fn case_folding_is_for_ascii_letters_only() {
    let commands = vec![command("été", &[], 1), command("a[b", &[], 2)];
    assert!(find_command(&commands, "ÉTÉ", true).is_none());
    assert_eq!(find_command(&commands, "été", true).unwrap().0.command.action, 1);
    // '[' and '{' are 0x20 apart but are no letters
    assert!(find_command(&commands, "a{b", true).is_none());
    assert_eq!(find_command(&commands, "A[B", true).unwrap().0.command.action, 2);
}

#[test]
fn subcommands_are_matched_as_deep_as_possible() {
    let grandchild = command("grandchild", &[], 3);
    let child = with_subcommands(command("child", &["c"], 2), vec![grandchild]);
    let parent = with_subcommands(command("parent", &[], 1), vec![child]);
    let commands = vec![parent, command("child", &[], 9)];

    let (found, args) = find_command(&commands, "parent child grandchild  some  args ", true).unwrap();
    assert_eq!(found.command.name, "grandchild");
    assert_eq!(found.command.action, 3);
    assert_eq!(args, "some  args ");

    let (found, args) = find_command(&commands, "parent child", true).unwrap();
    assert_eq!(found.command.action, 2);
    assert_eq!(args, "");

    let (found, args) = find_command(&commands, "parent c other", true).unwrap();
    assert_eq!(found.command.action, 2);
    assert_eq!(args, "other");

    let (found, args) = find_command(&commands, "parent grandchild x", true).unwrap();
    assert_eq!(found.command.action, 1);
    assert_eq!(args, "grandchild x");

    // a subcommand's name at the top level names the top-level command
    let (found, args) = find_command(&commands, "child grandchild", true).unwrap();
    assert_eq!(found.command.action, 9);
    assert_eq!(args, "grandchild");
}

#[test]
fn first_registered_command_wins() {
    let commands = vec![command("a", &["x"], 1), command("x", &[], 2), command("a", &[], 3)];
    assert_eq!(find_command(&commands, "x", true).unwrap().0.command.action, 1);
    assert_eq!(find_command(&commands, "a", true).unwrap().0.command.action, 1);
}

#[test]
fn text_without_a_first_word_names_no_command() {
    let commands = vec![command("ping", &[], 1), command("", &[], 2)];
    assert!(find_command(&commands, "", true).is_none());
    assert!(find_command(&commands, " ping", true).is_none());
    assert!(find_command(&commands, "pong", true).is_none());
    assert!(find_command(&commands, "pingping", true).is_none());
    assert!(find_command(&Vec::<PrefixCommandMeta<RouteHooks>>::new(), "ping", true).is_none());
}

#[test]
fn arguments_keep_everything_after_the_separating_white_space() {
    let commands = vec![command("say", &[], 1)];
    assert_eq!(find_command(&commands, "say\thello   world\n", true).unwrap().1, "hello   world\n");
    assert_eq!(find_command(&commands, "say\u{3000}\u{2028}x", true).unwrap().1, "x");
    assert_eq!(find_command(&commands, "say \u{200b}x", true).unwrap().1, "\u{200b}x");
}

#[test]
fn white_space_is_the_unicode_property() {
    for c in ['\t', '\n', '\u{b}', '\u{c}', '\r', ' ', '\u{85}', '\u{a0}', '\u{1680}', '\u{2000}',
        '\u{200a}', '\u{2028}', '\u{2029}', '\u{202f}', '\u{205f}', '\u{3000}']
    {
        assert!(is_whitespace(c), "{:?}", c);
    }
    for c in ['a', '0', '\u{8}', '\u{e}', '\u{1f}', '!', '\u{84}', '\u{86}', '\u{200b}', '\u{180e}',
        '\u{2001}', '\u{feff}', '越']
    {
        assert_eq!(is_whitespace(c), c.is_whitespace(), "{:?}", c);
    }
    let mut code = 0u32;
    while code < 0x3100 {
        if let Some(c) = char::from_u32(code) {
            assert_eq!(is_whitespace(c), c.is_whitespace(), "{:?}", c);
        }
        code += 1;
    }
}

#[test]
fn words_compare_by_folded_case() {
    let a = to_chars("Hello-World_9");
    let b = to_chars("hELLO-wORLD_9");
    assert!(same_word(&a, &b, true));
    assert!(!same_word(&a, &b, false));
    assert!(same_word(&a, &a, false));
    assert!(!same_word(&a, &to_chars("hello-world_"), true));
    assert!(!same_word(&to_chars("@"), &to_chars("`"), true));
    assert!(same_word(&to_chars("Z"), &to_chars("z"), true));
    assert!(same_word(&to_chars(""), &to_chars(""), true));
}

#[test]
fn numbers_are_written_in_decimal() {
    let mut out = vec!['#'];
    push_decimal(0, &mut out);
    push_decimal(907, &mut out);
    push_decimal(u64::MAX, &mut out);
    let text: String = out.into_iter().collect();
    assert_eq!(text, "#090718446744073709551615");
}

#[test]
fn commands_without_hooks_are_routed_like_any_other() {
    let commands: Vec<PrefixCommandMeta<NoHooks>> = vec![PrefixCommandMeta {
        command: PrefixCommand { name: "ping", action: (), options: PrefixCommandOptions::default() },
        category: Some("basics"),
        subcommands: Vec::new(),
    }];
    let (found, args) = find_command(&commands, "ping 1", false).unwrap();
    assert_eq!(found.category, Some("basics"));
    assert_eq!(args, "1");
}
