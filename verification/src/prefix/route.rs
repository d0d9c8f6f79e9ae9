//! Finding the command that a message names.
//!
//! The first word of the text names a command of the list, by its name or by one of
//! its aliases. The words that follow may name a subcommand of that command, a
//! subcommand of that one, and so on: the deepest command that can be reached this way
//! is the one invoked, and what is left of the text are its arguments.

use vstd::prelude::*;
use vstd::string::*;
use crate::prefix::structs::{Hooks, PrefixCommand, PrefixCommandMeta};
use crate::text::{
    lemma_run_len, run_end, run_len, same_word, spec_fold_case, spec_same_word, to_chars,
    trim_start,
};

verus! {

/// Whether `word` names `command`: it is the command's name or one of its aliases, in
/// the same case or, with `ignore_case`, in any.
pub open spec fn answers_to<K: Hooks>(
    command: PrefixCommand<K>,
    word: Seq<char>,
    ignore_case: bool,
) -> bool {
    ||| spec_same_word(command.name@, word, ignore_case)
    ||| exists|i: int|
        0 <= i < command.options.aliases@.len() && spec_same_word(
            (#[trigger] command.options.aliases@[i])@,
            word,
            ignore_case,
        )
}

/// Whether the command at `i` is the first of `commands` that `word` names.
pub open spec fn is_first_answering<K: Hooks>(
    commands: Seq<PrefixCommandMeta<K>>,
    word: Seq<char>,
    ignore_case: bool,
    i: int,
) -> bool {
    &&& 0 <= i < commands.len()
    &&& answers_to(commands[i].command, word, ignore_case)
    &&& forall|j: int|
        0 <= j < i ==> !answers_to((#[trigger] commands[j]).command, word, ignore_case)
}

/// Where the first of `commands` that `word` names stands in the list.
pub open spec fn first_answering<K: Hooks>(
    commands: Seq<PrefixCommandMeta<K>>,
    word: Seq<char>,
    ignore_case: bool,
) -> Option<int> {
    if exists|i: int| is_first_answering(commands, word, ignore_case, i) {
        Some(choose|i: int| is_first_answering(commands, word, ignore_case, i))
    } else {
        None
    }
}

/// The first word of `text`: the characters before its first white space.
pub open spec fn first_word(text: Seq<char>) -> Seq<char> {
    text.take(run_len(text, false) as int)
}

/// What follows the first word of `text`, without the white space in between.
pub open spec fn after_first_word(text: Seq<char>) -> Seq<char> {
    trim_start(text.skip(run_len(text, false) as int))
}

/// The command that `text` invokes among `commands`, and the arguments it is invoked
/// with.
///
/// A text that is empty or begins with white space invokes nothing. Else its first
/// word is looked up in `commands`, in the order of the list. Where no command answers
/// to it, nothing is invoked. Where one does, the rest of the text is looked up in the
/// same way among that command's subcommands: what is found there is the result, and
/// where nothing is found there the command itself is invoked, with the rest of the
/// text for its arguments.
pub open spec fn routed<K: Hooks>(
    commands: Seq<PrefixCommandMeta<K>>,
    text: Seq<char>,
    ignore_case: bool,
) -> Option<(PrefixCommandMeta<K>, Seq<char>)>
    decreases text.len(),
    via routed_terminates::<K>
{
    if first_word(text).len() == 0 {
        None
    } else {
        match first_answering(commands, first_word(text), ignore_case) {
            None => None,
            Some(i) => match routed(commands[i].subcommands@, after_first_word(text), ignore_case) {
                Some(deeper) => Some(deeper),
                None => Some((commands[i], after_first_word(text))),
            },
        }
    }
}

#[via_fn]
proof fn routed_terminates<K: Hooks>(
    commands: Seq<PrefixCommandMeta<K>>,
    text: Seq<char>,
    ignore_case: bool,
) {
    lemma_word_split(text);
}

/// A text is its first word, some white space, and what follows: the first word and
/// what follows it are never longer than the text, and where there is a first word,
/// what follows is shorter.
pub proof fn lemma_word_split(text: Seq<char>)
    ensures
        first_word(text).len() == run_len(text, false),
        run_len(text, false) <= text.len(),
        after_first_word(text).len() + first_word(text).len() <= text.len(),
{
    let n = run_len(text, false) as int;
    lemma_run_len(text, false, n);
    let tail = text.skip(n);
    lemma_run_len(tail, true, run_len(tail, true) as int);
}

/// The first command that a word names is where [`first_answering`] says, and only
/// there.
pub proof fn lemma_first_answering<K: Hooks>(
    commands: Seq<PrefixCommandMeta<K>>,
    word: Seq<char>,
    ignore_case: bool,
    i: int,
)
    ensures
        is_first_answering(commands, word, ignore_case, i) <==> first_answering(
            commands,
            word,
            ignore_case,
        ) == Some(i),
{
    if is_first_answering(commands, word, ignore_case, i) {
        let k = choose|k: int| is_first_answering(commands, word, ignore_case, k);
        assert(answers_to(commands[i].command, word, ignore_case));
        assert(answers_to(commands[k].command, word, ignore_case));
        assert(k == i);
    }
}

/// Whether `word` names `command`.
fn command_answers<K: Hooks>(command: &PrefixCommand<K>, word: &Vec<char>, ignore_case: bool) -> (yes:
    bool)
    ensures
        yes == answers_to(*command, word@, ignore_case),
{
    let name = to_chars(command.name);
    if same_word(&name, word, ignore_case) {
        return true;
    }
    let mut i: usize = 0;
    while i < command.options.aliases.len()
        invariant
            i <= command.options.aliases.len(),
            !spec_same_word(command.name@, word@, ignore_case),
            forall|j: int|
                0 <= j < i ==> !spec_same_word(
                    (#[trigger] command.options.aliases@[j])@,
                    word@,
                    ignore_case,
                ),
        decreases command.options.aliases.len() - i,
    {
        let alias = to_chars(command.options.aliases[i]);
        if same_word(&alias, word, ignore_case) {
            return true;
        }
        i = i + 1;
    }
    false
}

/// Where the first of `commands` that `word` names stands.
fn find_first<K: Hooks>(commands: &Vec<PrefixCommandMeta<K>>, word: &Vec<char>, ignore_case: bool) -> (found:
    Option<usize>)
    ensures
        match found {
            Some(i) => first_answering(commands@, word@, ignore_case) == Some(i as int) && i
                < commands.len(),
            None => first_answering(commands@, word@, ignore_case) is None,
        },
{
    let mut i: usize = 0;
    while i < commands.len()
        invariant
            i <= commands.len(),
            forall|j: int|
                0 <= j < i ==> !answers_to((#[trigger] commands@[j]).command, word@, ignore_case),
        decreases commands.len() - i,
    {
        if command_answers(&commands[i].command, word, ignore_case) {
            proof {
                assert(is_first_answering(commands@, word@, ignore_case, i as int));
                lemma_first_answering(commands@, word@, ignore_case, i as int);
            }
            return Some(i);
        }
        i = i + 1;
    }
    proof {
        if first_answering(commands@, word@, ignore_case) is Some {
            let k = choose|k: int| is_first_answering(commands@, word@, ignore_case, k);
            assert(answers_to(commands@[k].command, word@, ignore_case));
        }
    }
    None
}

/// The first `n` of `chars`.
fn take_chars(chars: &Vec<char>, n: usize) -> (head: Vec<char>)
    requires
        n <= chars.len(),
    ensures
        head@ == chars@.take(n as int),
{
    let mut head: Vec<char> = Vec::new();
    let mut i: usize = 0;
    while i < n
        invariant
            i <= n <= chars.len(),
            head@ == chars@.take(i as int),
        decreases n - i,
    {
        head.push(chars[i]);
        assert(chars@.take(i + 1) =~= chars@.take(i as int).push(chars@[i as int]));
        i = i + 1;
    }
    head
}

/// Finds the command that `remaining_message` invokes among `commands`, and the
/// arguments it is invoked with. `remaining_message` is what a message says after the
/// bot's prefix.
pub fn find_command<'a, K: Hooks>(
    commands: &'a Vec<PrefixCommandMeta<K>>,
    remaining_message: &'a str,
    ignore_case: bool,
) -> (found: Option<(&'a PrefixCommandMeta<K>, &'a str)>)
    ensures
        match routed(commands@, remaining_message@, ignore_case) {
            Some((command, args)) => found matches Some((c, a)) && *c == command && a@ == args,
            None => found is None,
        },
    decreases remaining_message@.len(),
{
    let chars = to_chars(remaining_message);
    assert(chars@.skip(0) =~= chars@);
    let word_end = run_end(&chars, 0, false);
    if word_end == 0 {
        return None;
    }
    let word = take_chars(&chars, word_end);
    let args_start = run_end(&chars, word_end, true);
    let rest = remaining_message.substring_char(args_start, chars.len());
    proof {
        assert(rest@ =~= after_first_word(remaining_message@));
        lemma_word_split(remaining_message@);
    }
    match find_first(commands, &word, ignore_case) {
        None => None,
        Some(i) => {
            let command = &commands[i];
            match find_command(&command.subcommands, rest, ignore_case) {
                Some(deeper) => Some(deeper),
                None => Some((command, rest)),
            }
        },
    }
}

/// Folding case is blind to case: words that differ in the case of ASCII letters only
/// are the same word to every comparison that ignores case.
pub proof fn lemma_same_word_case_blind(name: Seq<char>, word: Seq<char>, other: Seq<char>)
    requires
        spec_same_word(word, other, true),
    ensures
        spec_same_word(name, word, true) == spec_same_word(name, other, true),
        spec_same_word(word, word, true),
        spec_same_word(other, word, true),
{
    if name.len() == word.len() {
        if spec_same_word(name, word, true) {
            assert forall|i: int| 0 <= i < name.len() implies spec_fold_case(#[trigger] name[i])
                == spec_fold_case(other[i]) by {
                assert(spec_fold_case(word[i]) == spec_fold_case(other[i]));
            }
        }
        if spec_same_word(name, other, true) {
            assert forall|i: int| 0 <= i < name.len() implies spec_fold_case(#[trigger] name[i])
                == spec_fold_case(word[i]) by {
                assert(spec_fold_case(word[i]) == spec_fold_case(other[i]));
            }
        }
    }
}

/// With case ignored, a command answers to a word in whatever case the word is
/// written: by its name and by each of its aliases alike.
pub proof fn lemma_answers_case_blind<K: Hooks>(
    command: PrefixCommand<K>,
    word: Seq<char>,
    other: Seq<char>,
)
    requires
        spec_same_word(word, other, true),
    ensures
        answers_to(command, word, true) == answers_to(command, other, true),
{
    lemma_same_word_case_blind(command.name@, word, other);
    assert forall|i: int| 0 <= i < command.options.aliases@.len() implies spec_same_word(
        (#[trigger] command.options.aliases@[i])@,
        word,
        true,
    ) == spec_same_word(command.options.aliases@[i]@, other, true) by {
        lemma_same_word_case_blind(command.options.aliases@[i]@, word, other);
    }
}

/// With case ignored, the command that a word finds in a list does not depend on the
/// case the word is written in.
pub proof fn lemma_lookup_case_blind<K: Hooks>(
    commands: Seq<PrefixCommandMeta<K>>,
    word: Seq<char>,
    other: Seq<char>,
)
    requires
        spec_same_word(word, other, true),
    ensures
        first_answering(commands, word, true) == first_answering(commands, other, true),
{
    assert forall|i: int| is_first_answering(commands, word, true, i) == is_first_answering(
        commands,
        other,
        true,
        i,
    ) by {
        if 0 <= i < commands.len() {
            lemma_answers_case_blind(commands[i].command, word, other);
            assert forall|j: int| 0 <= j < i implies answers_to(
                (#[trigger] commands[j]).command,
                word,
                true,
            ) == answers_to(commands[j].command, other, true) by {
                lemma_answers_case_blind(commands[j].command, word, other);
            }
        }
    }
    match first_answering(commands, word, true) {
        Some(i) => {
            lemma_first_answering(commands, word, true, i);
            lemma_first_answering(commands, other, true, i);
        },
        None => {
            if first_answering(commands, other, true) is Some {
                let k = first_answering(commands, other, true)->0;
                lemma_first_answering(commands, other, true, k);
                lemma_first_answering(commands, word, true, k);
            }
        },
    }
}

/// A command answers to its own name and to each of its aliases, in any case where
/// case is ignored.
pub proof fn lemma_answers_to_names<K: Hooks>(command: PrefixCommand<K>, word: Seq<char>, i: int)
    ensures
        spec_same_word(command.name@, word, true) ==> answers_to(command, word, true),
        command.name@ == word ==> answers_to(command, word, false) && answers_to(command, word, true),
        0 <= i < command.options.aliases@.len() && spec_same_word(
            command.options.aliases@[i]@,
            word,
            true,
        ) ==> answers_to(command, word, true),
        0 <= i < command.options.aliases@.len() && command.options.aliases@[i]@ == word
            ==> answers_to(command, word, false) && answers_to(command, word, true),
{
    if 0 <= i < command.options.aliases@.len() && command.options.aliases@[i]@ == word {
        assert(spec_same_word(command.options.aliases@[i]@, word, false));
        assert(spec_same_word(command.options.aliases@[i]@, word, true));
    }
}

/// Routing goes as deep as it can: where the first word of a text finds a command and
/// the rest of the text finds something among that command's subcommands, the result
/// is what was found below; the command itself is the result only where nothing below
/// answers, and then all the rest of the text are its arguments.
pub proof fn lemma_routes_deepest<K: Hooks>(
    commands: Seq<PrefixCommandMeta<K>>,
    text: Seq<char>,
    ignore_case: bool,
    i: int,
)
    requires
        first_word(text).len() > 0,
        is_first_answering(commands, first_word(text), ignore_case, i),
    ensures
        routed(commands[i].subcommands@, after_first_word(text), ignore_case) is Some ==> routed(
            commands,
            text,
            ignore_case,
        ) == routed(commands[i].subcommands@, after_first_word(text), ignore_case),
        routed(commands[i].subcommands@, after_first_word(text), ignore_case) is None ==> routed(
            commands,
            text,
            ignore_case,
        ) == Some((commands[i], after_first_word(text))),
{
    lemma_first_answering(commands, first_word(text), ignore_case, i);
}

/// Three words deep: where the first word of a text finds a command, the second a
/// subcommand of it and the third a subcommand of that, and nothing below answers to
/// what follows, the command invoked is the last of the three, and its arguments are
/// what follows the third word.
pub proof fn lemma_routes_three_deep<K: Hooks>(
    commands: Seq<PrefixCommandMeta<K>>,
    text: Seq<char>,
    ignore_case: bool,
    i: int,
    j: int,
    k: int,
)
    requires
        first_word(text).len() > 0,
        is_first_answering(commands, first_word(text), ignore_case, i),
        first_word(after_first_word(text)).len() > 0,
        is_first_answering(
            commands[i].subcommands@,
            first_word(after_first_word(text)),
            ignore_case,
            j,
        ),
        first_word(after_first_word(after_first_word(text))).len() > 0,
        is_first_answering(
            commands[i].subcommands@[j].subcommands@,
            first_word(after_first_word(after_first_word(text))),
            ignore_case,
            k,
        ),
        routed(
            commands[i].subcommands@[j].subcommands@[k].subcommands@,
            after_first_word(after_first_word(after_first_word(text))),
            ignore_case,
        ) is None,
    ensures
        routed(commands, text, ignore_case) == Some(
            (
                commands[i].subcommands@[j].subcommands@[k],
                after_first_word(after_first_word(after_first_word(text))),
            ),
        ),
{
    let second = after_first_word(text);
    let third = after_first_word(second);
    let children = commands[i].subcommands@;
    let grandchildren = children[j].subcommands@;
    lemma_routes_deepest(grandchildren, third, ignore_case, k);
    lemma_routes_deepest(children, second, ignore_case, j);
    lemma_routes_deepest(commands, text, ignore_case, i);
}

/// A text whose first word no command answers to invokes nothing, whatever follows.
pub proof fn lemma_unknown_word_routes_nowhere<K: Hooks>(
    commands: Seq<PrefixCommandMeta<K>>,
    text: Seq<char>,
    ignore_case: bool,
)
    requires
        forall|j: int|
            0 <= j < commands.len() ==> !answers_to(
                (#[trigger] commands[j]).command,
                first_word(text),
                ignore_case,
            ),
    ensures
        routed(commands, text, ignore_case) is None,
{
    if first_answering(commands, first_word(text), ignore_case) is Some {
        let k = choose|k: int| is_first_answering(commands, first_word(text), ignore_case, k);
        assert(answers_to(commands[k].command, first_word(text), ignore_case));
    }
}

/// A text without any white space is one word: it is its own first word, nothing
/// follows it, and trimming leaves it as it is.
pub proof fn lemma_lone_word(word: Seq<char>)
    requires
        forall|i: int| 0 <= i < word.len() ==> !crate::text::spec_is_whitespace(#[trigger] word[i]),
    ensures
        first_word(word) == word,
        after_first_word(word) == Seq::<char>::empty(),
        trim_start(word) == word,
{
    lemma_run_len(word, false, word.len() as int);
    lemma_run_len(word, true, 0);
    assert(word.take(word.len() as int) =~= word);
    assert(word.skip(0) =~= word);
    let tail = word.skip(word.len() as int);
    assert(tail =~= Seq::<char>::empty());
    lemma_run_len(tail, true, 0);
    assert(tail.skip(0) =~= tail);
}

/// A text of one word invokes the first command that answers to the word, with no
/// arguments.
pub proof fn lemma_lone_word_invokes<K: Hooks>(
    commands: Seq<PrefixCommandMeta<K>>,
    word: Seq<char>,
    ignore_case: bool,
    i: int,
)
    requires
        word.len() > 0,
        forall|k: int| 0 <= k < word.len() ==> !crate::text::spec_is_whitespace(#[trigger] word[k]),
        is_first_answering(commands, word, ignore_case, i),
    ensures
        routed(commands, word, ignore_case) == Some((commands[i], Seq::<char>::empty())),
{
    lemma_lone_word(word);
    lemma_run_len(Seq::<char>::empty(), false, 0);
    assert(first_word(Seq::<char>::empty()).len() == 0);
    lemma_routes_deepest(commands, word, ignore_case, i);
}

} // verus!
