//! Finding out whether a message addresses the bot, and what it says after the
//! address.
//!
//! A message addresses the bot where it starts with one of the prefixes listed in the
//! bot's settings, with a mention of the bot, or with whatever the application's own
//! prefix rule accepts. The rules are tried in that order and the first that fits
//! decides.

use vstd::prelude::*;
use vstd::string::*;
use vstd::utf8::*;
use crate::framework::Framework;
use crate::message::{Message, MessageView};
use crate::prefix::structs::{Hooks, Prefix, PrefixFrameworkOptions};
use crate::text::{decimal, matches_at, push_decimal, run_end, run_len, to_chars, trim_start};

verus! {

/// Where the first match of a regular expression in a text begins and ends, in bytes
/// of the text's UTF-8 form; `None` where there is no match. This is what
/// `Regex::find` returns, as the pair of `Match::start` and `Match::end`.
pub uninterp spec fn regex_find_span(re: regex::Regex, text: Seq<char>) -> Option<(usize, usize)>;

/// `Regex::find`, with the match handed back as its two byte offsets.
///
/// Taken as given: the search depends on the expression and the text alone, and both
/// offsets of a match lie within the text, in order, on character boundaries.
#[verifier::external_body]
fn regex_find(re: &regex::Regex, text: &str) -> (span: Option<(usize, usize)>)
    ensures
        span == regex_find_span(*re, text@),
        span matches Some((start, end)) ==> {
            &&& start <= end <= text.spec_bytes().len()
            &&& is_char_boundary(text.spec_bytes(), start as int)
            &&& is_char_boundary(text.spec_bytes(), end as int)
        },
{
    match re.find(text) {
        Some(found) => Some((found.start(), found.end())),
        None => None,
    }
}

/// What is left of `content` after the literal prefix `literal`, if it starts with it.
pub open spec fn stripped_literal(literal: Seq<char>, content: Seq<char>) -> Option<Seq<char>> {
    if literal.is_prefix_of(content) {
        Some(content.skip(literal.len() as int))
    } else {
        None
    }
}

/// The text that follows the first `offset` bytes of the UTF-8 form of `text`.
pub open spec fn after_byte(text: Seq<char>, offset: int) -> Seq<char> {
    decode_utf8(encode_utf8(text).subrange(offset, encode_utf8(text).len() as int))
}

/// What is left of `content` after a match that spans `span`, if the match is at the
/// very start and ends between two characters of the content.
pub open spec fn stripped_span(span: Option<(usize, usize)>, content: Seq<char>) -> Option<
    Seq<char>,
> {
    match span {
        Some((start, end)) => if start == 0 && is_char_boundary(encode_utf8(content), end as int) {
            Some(after_byte(content, end as int))
        } else {
            None
        },
        None => None,
    }
}

/// What is left of `content` after `prefix`, if `content` starts with it: after a
/// literal prefix, what follows the literal; after a regular expression, what follows
/// its first match, provided that the match begins where the content begins.
pub open spec fn stripped_by(prefix: Prefix, content: Seq<char>) -> Option<Seq<char>> {
    match prefix {
        Prefix::Literal(literal) => stripped_literal(literal@, content),
        Prefix::Regex(re) => stripped_span(regex_find_span(re, content), content),
    }
}

/// What is left of `content` after the first of `prefixes` that it starts with.
pub open spec fn first_stripped(prefixes: Seq<Prefix>, content: Seq<char>) -> Option<Seq<char>>
    decreases prefixes.len(),
{
    if prefixes.len() == 0 {
        None
    } else {
        match stripped_by(prefixes[0], content) {
            Some(rest) => Some(rest),
            None => first_stripped(prefixes.drop_first(), content),
        }
    }
}

/// How a user with id `id` is mentioned: `<@id>`, or `<@!id>` where the mention uses
/// the user's nickname, with the id in decimal.
pub open spec fn mention(id: u64, nickname: bool) -> Seq<char> {
    let open = if nickname {
        seq!['<', '@', '!']
    } else {
        seq!['<', '@']
    };
    open + decimal(id as nat) + seq!['>']
}

/// What is left of `content` after a mention of the bot, if it starts with one and the
/// bot's id is known.
pub open spec fn stripped_mention(bot_id: Option<u64>, content: Seq<char>) -> Option<Seq<char>> {
    match bot_id {
        None => None,
        Some(id) => match stripped_literal(mention(id, false), content) {
            Some(rest) => Some(rest),
            None => stripped_literal(mention(id, true), content),
        },
    }
}

/// What the fixed rules make of a message.
pub enum Resolution {
    /// The message addresses the bot, and this is what it says after the address,
    /// without the white space that it begins with.
    Stripped(Seq<char>),
    /// No fixed rule fits, and the application's own rule is to be asked.
    AskDynamic,
    /// The message does not address the bot.
    Unaddressed,
}

/// Whether the bot itself wrote the message, as far as it knows its own id.
pub open spec fn is_self_message(bot_id: Option<u64>, msg: MessageView) -> bool {
    bot_id == Some(msg.author.id)
}

/// What the fixed rules make of a message, given the bot's id and its settings.
///
/// A message of the bot's own is never a command unless the settings say so. Else
/// each prefix of the settings is tried in the order of the list, then, where the
/// settings allow it, a mention of the bot. The first that fits decides. Where none
/// fits, the application's own rule is asked if there is one.
pub open spec fn resolution<K: Hooks>(
    bot_id: Option<u64>,
    options: PrefixFrameworkOptions<K>,
    msg: MessageView,
) -> Resolution {
    if !options.execute_self_messages && is_self_message(bot_id, msg) {
        Resolution::Unaddressed
    } else if first_stripped(options.additional_prefixes@, msg.content) is Some {
        Resolution::Stripped(
            trim_start(first_stripped(options.additional_prefixes@, msg.content)->0),
        )
    } else if options.mention_as_prefix && stripped_mention(bot_id, msg.content) is Some {
        Resolution::Stripped(trim_start(stripped_mention(bot_id, msg.content)->0))
    } else if options.dynamic_prefix is Some {
        Resolution::AskDynamic
    } else {
        Resolution::Unaddressed
    }
}

/// What the application's own rule makes of a message: where it hands back the text
/// after the prefix, that text without the white space it begins with.
pub open spec fn dynamic_resolution(answer: Option<Seq<char>>) -> Option<Seq<char>> {
    match answer {
        Some(rest) => Some(trim_start(rest)),
        None => None,
    }
}

/// What the fixed rules make of a message: see [`Resolution`].
pub enum Trigger<'a> {
    /// The message addresses the bot, and this is what it says after the address.
    Stripped(&'a str),
    /// No fixed rule fits, and the application's own rule is to be asked.
    AskDynamic,
    /// The message does not address the bot.
    Unaddressed,
}

impl View for Trigger<'_> {
    type V = Resolution;

    open spec fn view(&self) -> Resolution {
        match *self {
            Trigger::Stripped(rest) => Resolution::Stripped(rest@),
            Trigger::AskDynamic => Resolution::AskDynamic,
            Trigger::Unaddressed => Resolution::Unaddressed,
        }
    }
}

/// `text` from its character `from` on, without the white space found there.
fn trimmed_from<'a>(text: &'a str, chars: &Vec<char>, from: usize) -> (rest: &'a str)
    requires
        chars@ == text@,
        from <= chars.len(),
    ensures
        rest@ == trim_start(text@.skip(from as int)),
{
    let start = run_end(chars, from, true);
    let rest = text.substring_char(start, chars.len());
    assert(rest@ =~= trim_start(text@.skip(from as int)));
    rest
}

/// What is left of `text` after `literal`, if it starts with it, trimmed.
fn strip_literal<'a>(text: &'a str, chars: &Vec<char>, literal: &Vec<char>) -> (rest: Option<
    &'a str,
>)
    requires
        chars@ == text@,
    ensures
        match stripped_literal(literal@, text@) {
            Some(left) => rest matches Some(r) && r@ == trim_start(left),
            None => rest is None,
        },
{
    if matches_at(chars, 0, literal) {
        assert(text@.skip(0) =~= text@);
        Some(trimmed_from(text, chars, literal.len()))
    } else {
        assert(text@.skip(0) =~= text@);
        None
    }
}

/// What is left of `text` after its first `offset` bytes, trimmed.
fn trimmed_after_byte<'a>(text: &'a str, offset: usize) -> (rest: &'a str)
    requires
        is_char_boundary(text.spec_bytes(), offset as int),
    ensures
        rest@ == trim_start(after_byte(text@, offset as int)),
{
    let (_, tail) = text.split_at(offset);
    proof {
        encode_utf8_decode_utf8(tail@);
        assert(tail@ == after_byte(text@, offset as int));
    }
    let tail_chars = to_chars(tail);
    assert(tail@.skip(0) =~= tail@);
    trimmed_from(tail, &tail_chars, 0)
}

/// What is left of `text` after a match of a regular expression that was found to span
/// the bytes from `span.0` to `span.1`: the text after the match, trimmed, if the
/// match begins where the text begins. A span that does not end between two
/// characters of the text is the span of no match, and leaves nothing.
pub fn strip_span<'a>(text: &'a str, span: Option<(usize, usize)>) -> (rest: Option<&'a str>)
    ensures
        match stripped_span(span, text@) {
            Some(left) => rest matches Some(r) && r@ == trim_start(left),
            None => rest is None,
        },
{
    match span {
        Some((start, end)) => {
            if start == 0 && text.is_char_boundary(end) {
                Some(trimmed_after_byte(text, end))
            } else {
                None
            }
        },
        None => None,
    }
}

/// What is left of `text` after `prefix`, if it starts with it, trimmed.
fn strip_one<'a>(text: &'a str, chars: &Vec<char>, prefix: &Prefix) -> (rest: Option<&'a str>)
    requires
        chars@ == text@,
    ensures
        match stripped_by(*prefix, text@) {
            Some(left) => rest matches Some(r) && r@ == trim_start(left),
            None => rest is None,
        },
{
    match prefix {
        Prefix::Literal(literal) => {
            let pattern = to_chars(literal);
            strip_literal(text, chars, &pattern)
        },
        Prefix::Regex(re) => strip_span(text, regex_find(re, text)),
    }
}

/// What is left of `text` after the first of `prefixes` that it starts with, trimmed.
fn strip_first<'a>(text: &'a str, chars: &Vec<char>, prefixes: &Vec<Prefix>) -> (rest: Option<
    &'a str,
>)
    requires
        chars@ == text@,
    ensures
        match first_stripped(prefixes@, text@) {
            Some(left) => rest matches Some(r) && r@ == trim_start(left),
            None => rest is None,
        },
{
    let mut i: usize = 0;
    assert(prefixes@.skip(0) =~= prefixes@);
    while i < prefixes.len()
        invariant
            i <= prefixes.len(),
            chars@ == text@,
            first_stripped(prefixes@, text@) == first_stripped(prefixes@.skip(i as int), text@),
        decreases prefixes.len() - i,
    {
        proof {
            assert(prefixes@.skip(i as int)[0] == prefixes@[i as int]);
            assert(prefixes@.skip(i as int).drop_first() =~= prefixes@.skip(i + 1));
        }
        match strip_one(text, chars, &prefixes[i]) {
            Some(rest) => {
                return Some(rest);
            },
            None => {},
        }
        i = i + 1;
    }
    None
}

/// The mention of user `id`, written out.
fn mention_chars(id: u64, nickname: bool) -> (token: Vec<char>)
    ensures
        token@ == mention(id, nickname),
{
    let mut token: Vec<char> = Vec::new();
    token.push('<');
    token.push('@');
    if nickname {
        token.push('!');
    }
    let ghost open = token@;
    push_decimal(id, &mut token);
    token.push('>');
    proof {
        assert(open =~= if nickname {
            seq!['<', '@', '!']
        } else {
            seq!['<', '@']
        });
        assert(token@ =~= open + decimal(id as nat) + seq!['>']);
    }
    token
}

/// What is left of `text` after a mention of the bot, if it starts with one, trimmed.
fn strip_mention<'a>(text: &'a str, chars: &Vec<char>, bot_id: Option<u64>) -> (rest: Option<
    &'a str,
>)
    requires
        chars@ == text@,
    ensures
        match stripped_mention(bot_id, text@) {
            Some(left) => rest matches Some(r) && r@ == trim_start(left),
            None => rest is None,
        },
{
    match bot_id {
        None => None,
        Some(id) => {
            let plain = mention_chars(id, false);
            match strip_literal(text, chars, &plain) {
                Some(rest) => Some(rest),
                None => {
                    let nick = mention_chars(id, true);
                    strip_literal(text, chars, &nick)
                },
            }
        },
    }
}

/// Finds out by the fixed rules whether `msg` addresses the bot, whose own user id is
/// `bot_id` as far as it is known.
///
/// Where the answer is [`Trigger::AskDynamic`], the caller asks the application's own
/// prefix rule and passes what it says through [`dynamic_prefix_answered`].
pub fn strip_prefix<'a, K: Hooks>(
    framework: &Framework<K>,
    bot_id: Option<u64>,
    msg: &'a Message,
) -> (trigger: Trigger<'a>)
    ensures
        trigger@ == resolution(bot_id, framework.spec_options().prefix_options, msg@),
{
    let options = &framework.options().prefix_options;
    if !options.execute_self_messages {
        if let Some(id) = bot_id {
            if id == msg.author.id {
                return Trigger::Unaddressed;
            }
        }
    }
    let text = msg.content.as_str();
    let chars = to_chars(text);
    if let Some(rest) = strip_first(text, &chars, &options.additional_prefixes) {
        return Trigger::Stripped(rest);
    }
    if options.mention_as_prefix {
        if let Some(rest) = strip_mention(text, &chars, bot_id) {
            return Trigger::Stripped(rest);
        }
    }
    if options.dynamic_prefix.is_some() {
        Trigger::AskDynamic
    } else {
        Trigger::Unaddressed
    }
}

/// Takes the answer of the application's own prefix rule: the text after the prefix
/// that it found, or `None`. Where it found one, the message addresses the bot with
/// that text, less the white space it begins with.
pub fn dynamic_prefix_answered<'a>(answer: Option<&'a str>) -> (rest: Option<&'a str>)
    ensures
        match dynamic_resolution(
            match answer {
                Some(text) => Some(text@),
                None => None,
            },
        ) {
            Some(left) => rest matches Some(r) && r@ == left,
            None => rest is None,
        },
{
    match answer {
        Some(text) => {
            let chars = to_chars(text);
            assert(text@.skip(0) =~= text@);
            Some(trimmed_from(text, &chars, 0))
        },
        None => None,
    }
}

/// Prefixes are tried in the order of the list: the one that decides is the earliest
/// that fits.
pub proof fn lemma_first_stripped(prefixes: Seq<Prefix>, content: Seq<char>, i: int)
    requires
        0 <= i < prefixes.len(),
        stripped_by(prefixes[i], content) is Some,
        forall|j: int| 0 <= j < i ==> stripped_by(#[trigger] prefixes[j], content) is None,
    ensures
        first_stripped(prefixes, content) == stripped_by(prefixes[i], content),
    decreases i,
{
    if i > 0 {
        let rest = prefixes.drop_first();
        assert(stripped_by(prefixes[0], content) is None);
        assert(rest[i - 1] == prefixes[i]);
        assert forall|j: int| 0 <= j < i - 1 implies stripped_by(#[trigger] rest[j], content)
            is None by {
            assert(rest[j] == prefixes[j + 1]);
        }
        lemma_first_stripped(rest, content, i - 1);
    }
}

/// A prefix wins over a mention: where a message that is not ignored as the bot's own
/// starts with one of the prefixes of the settings, the earliest such prefix decides
/// what the message says, whether or not the message also starts with a mention of
/// the bot and whatever the rule for mentions is. The application's own rule is not
/// asked.
pub proof fn lemma_prefix_before_mention<K: Hooks>(
    bot_id: Option<u64>,
    options: PrefixFrameworkOptions<K>,
    msg: MessageView,
    i: int,
)
    requires
        options.execute_self_messages || !is_self_message(bot_id, msg),
        0 <= i < options.additional_prefixes@.len(),
        stripped_by(options.additional_prefixes@[i], msg.content) is Some,
        forall|j: int|
            0 <= j < i ==> stripped_by(#[trigger] options.additional_prefixes@[j], msg.content)
                is None,
    ensures
        resolution(bot_id, options, msg) == Resolution::Stripped(
            trim_start(stripped_by(options.additional_prefixes@[i], msg.content)->0),
        ),
{
    lemma_first_stripped(options.additional_prefixes@, msg.content, i);
}

/// With the bot's own messages shut out, a message that the bot wrote addresses
/// nobody: no rule is tried on it, and the application's own rule is not asked.
pub proof fn lemma_own_messages_ignored<K: Hooks>(
    bot_id: Option<u64>,
    options: PrefixFrameworkOptions<K>,
    msg: MessageView,
)
    requires
        !options.execute_self_messages,
        bot_id == Some(msg.author.id),
    ensures
        resolution(bot_id, options, msg) == Resolution::Unaddressed,
{
}

/// What a message says after its address never begins with white space.
pub proof fn lemma_trimmed(s: Seq<char>)
    ensures
        trim_start(s).len() > 0 ==> !crate::text::spec_is_whitespace(trim_start(s)[0]),
        trim_start(trim_start(s)) == trim_start(s),
{
    let n = run_len(s, true) as int;
    crate::text::lemma_run_len(s, true, n);
    let t = trim_start(s);
    if t.len() > 0 {
        assert(t[0] == s[n]);
    }
    crate::text::lemma_run_len(t, true, 0);
    assert(t.skip(0) =~= t);
}

} // verus!
