//! Text as sequences of characters: white space, words, case, and decimal numbers.
//!
//! Everything that the dispatch logic asks of a message's text is asked here, over
//! `Seq<char>` in contracts and over `Vec<char>` in code.

use vstd::prelude::*;
use vstd::string::*;

verus! {

/// Whether `c` is white space: one of the characters with Unicode's `White_Space`
/// property.
pub open spec fn spec_is_whitespace(c: char) -> bool {
    let code = c as u32;
    ||| 0x09 <= code <= 0x0D
    ||| code == 0x20
    ||| code == 0x85
    ||| code == 0xA0
    ||| code == 0x1680
    ||| 0x2000 <= code <= 0x200A
    ||| code == 0x2028
    ||| code == 0x2029
    ||| code == 0x202F
    ||| code == 0x205F
    ||| code == 0x3000
}

/// Whether `c` is white space.
pub fn is_whitespace(c: char) -> (white: bool)
    ensures
        white == spec_is_whitespace(c),
{
    let code: u32 = c as u32;
    (0x09 <= code && code <= 0x0D) || code == 0x20 || code == 0x85 || code == 0xA0 || code
        == 0x1680 || (0x2000 <= code && code <= 0x200A) || code == 0x2028 || code == 0x2029
        || code == 0x202F || code == 0x205F || code == 0x3000
}

/// The code of `c` with the ASCII capitals `A` to `Z` taken to `a` to `z`; every other
/// character keeps its code.
pub open spec fn spec_fold_case(c: char) -> u32 {
    let code = c as u32;
    if 0x41 <= code <= 0x5A {
        (code + 0x20) as u32
    } else {
        code
    }
}

/// The code of `c` with ASCII capitals taken to small letters.
pub fn fold_case(c: char) -> (code: u32)
    ensures
        code == spec_fold_case(c),
{
    let code: u32 = c as u32;
    if 0x41 <= code && code <= 0x5A {
        code + 0x20
    } else {
        code
    }
}

/// Whether `a` and `b` are the same text, or, where `ignore_case` is set, the same but
/// for the case of ASCII letters.
pub open spec fn spec_same_word(a: Seq<char>, b: Seq<char>, ignore_case: bool) -> bool {
    &&& a.len() == b.len()
    &&& forall|i: int|
        0 <= i < a.len() ==> if ignore_case {
            spec_fold_case(#[trigger] a[i]) == spec_fold_case(b[i])
        } else {
            a[i] == b[i]
        }
}

/// Whether `a` and `b` are the same text, or the same but for the case of ASCII letters.
pub fn same_word(a: &Vec<char>, b: &Vec<char>, ignore_case: bool) -> (same: bool)
    ensures
        same == spec_same_word(a@, b@, ignore_case),
{
    if a.len() != b.len() {
        return false;
    }
    let mut i: usize = 0;
    while i < a.len()
        invariant
            i <= a.len(),
            a.len() == b.len(),
            forall|j: int|
                0 <= j < i ==> if ignore_case {
                    spec_fold_case(#[trigger] a@[j]) == spec_fold_case(b@[j])
                } else {
                    a@[j] == b@[j]
                },
        decreases a.len() - i,
    {
        let matches = if ignore_case {
            fold_case(a[i]) == fold_case(b[i])
        } else {
            a[i] == b[i]
        };
        if !matches {
            return false;
        }
        i = i + 1;
    }
    true
}

/// The characters of a string.
pub fn to_chars(s: &str) -> (chars: Vec<char>)
    ensures
        chars@ == s@,
{
    let mut chars: Vec<char> = Vec::new();
    for c in it: s.chars()
        invariant
            chars@ == it.seq().take(it.index() as int),
            it.seq() == s@,
    {
        chars.push(c);
    }
    chars
}

/// How many characters at the start of `s` are white space (`white` set) or are not
/// (`white` clear): the length of the longest such run.
pub open spec fn run_len(s: Seq<char>, white: bool) -> nat
    decreases s.len(),
{
    if s.len() > 0 && spec_is_whitespace(s[0]) == white {
        1 + run_len(s.drop_first(), white)
    } else {
        0
    }
}

/// `s` without the white space it starts with.
pub open spec fn trim_start(s: Seq<char>) -> Seq<char> {
    s.skip(run_len(s, true) as int)
}

/// A run is as long as [`run_len`] says exactly if it fits, all of it is of the kind
/// asked for, and what follows it, if anything, is not.
pub proof fn lemma_run_len(s: Seq<char>, white: bool, n: int)
    ensures
        run_len(s, white) <= s.len(),
        n == run_len(s, white) <==> {
            &&& 0 <= n <= s.len()
            &&& forall|i: int| 0 <= i < n ==> spec_is_whitespace(#[trigger] s[i]) == white
            &&& n < s.len() ==> spec_is_whitespace(s[n]) != white
        },
    decreases s.len(),
{
    if s.len() > 0 && spec_is_whitespace(s[0]) == white {
        let rest = s.drop_first();
        lemma_run_len(rest, white, n - 1);
        if n == run_len(s, white) {
            assert forall|i: int| 0 <= i < n implies spec_is_whitespace(#[trigger] s[i])
                == white by {
                if i > 0 {
                    assert(rest[i - 1] == s[i]);
                }
            }
            if n < s.len() {
                assert(rest[n - 1] == s[n]);
            }
        }
        if 0 <= n <= s.len() && (forall|i: int|
            0 <= i < n ==> spec_is_whitespace(#[trigger] s[i]) == white) && (n < s.len()
            ==> spec_is_whitespace(s[n]) != white) {
            if n == 0 {
                assert(spec_is_whitespace(s[0]) != white);
            }
            assert forall|i: int| 0 <= i < n - 1 implies spec_is_whitespace(#[trigger] rest[i])
                == white by {
                assert(rest[i] == s[i + 1]);
            }
            if n - 1 < rest.len() {
                assert(rest[n - 1] == s[n]);
            }
        }
    } else {
        if 0 < n <= s.len() && (forall|i: int|
            0 <= i < n ==> spec_is_whitespace(#[trigger] s[i]) == white) {
            assert(spec_is_whitespace(s[0]) == white);
        }
    }
}

/// The end of the run of white space (or of other characters) that starts at `from`.
pub fn run_end(text: &Vec<char>, from: usize, white: bool) -> (end: usize)
    requires
        from <= text.len(),
    ensures
        end == from + run_len(text@.skip(from as int), white),
        from <= end <= text.len(),
{
    let mut end: usize = from;
    while end < text.len() && is_whitespace(text[end]) == white
        invariant
            from <= end <= text.len(),
            forall|i: int| from <= i < end ==> spec_is_whitespace(#[trigger] text@[i]) == white,
        decreases text.len() - end,
    {
        end = end + 1;
    }
    proof {
        let rest = text@.skip(from as int);
        assert forall|i: int| 0 <= i < end - from implies spec_is_whitespace(#[trigger] rest[i])
            == white by {
            assert(rest[i] == text@[from + i]);
        }
        lemma_run_len(rest, white, end - from);
    }
    end
}

/// Whether `pattern` stands in `text` at `at`.
pub fn matches_at(text: &Vec<char>, at: usize, pattern: &Vec<char>) -> (hit: bool)
    requires
        at <= text.len(),
    ensures
        hit == pattern@.is_prefix_of(text@.skip(at as int)),
{
    if pattern.len() > text.len() - at {
        return false;
    }
    let mut i: usize = 0;
    while i < pattern.len()
        invariant
            i <= pattern.len(),
            at + pattern.len() <= text.len(),
            forall|j: int| 0 <= j < i ==> text@[at + j] == #[trigger] pattern@[j],
        decreases pattern.len() - i,
    {
        if text[at + i] != pattern[i] {
            proof {
                let rest = text@.skip(at as int);
                if pattern@.is_prefix_of(rest) {
                    assert(rest.subrange(0, pattern@.len() as int)[i as int] == pattern@[i as int]);
                }
            }
            return false;
        }
        i = i + 1;
    }
    proof {
        let rest = text@.skip(at as int);
        assert(pattern@ =~= rest.subrange(0, pattern@.len() as int));
    }
    true
}

/// The character for the digit `d`.
pub open spec fn digit(d: nat) -> char
    recommends
        d < 10,
{
    ((0x30 + d) as u8) as char
}

/// `n` written in decimal, without leading zeros.
pub open spec fn decimal(n: nat) -> Seq<char>
    decreases n,
{
    if n < 10 {
        seq![digit(n)]
    } else {
        decimal(n / 10).push(digit(n % 10))
    }
}

/// Writes `n` in decimal at the end of `out`.
pub fn push_decimal(n: u64, out: &mut Vec<char>)
    ensures
        final(out)@ == old(out)@ + decimal(n as nat),
    decreases n,
{
    if n >= 10 {
        push_decimal(n / 10, out);
    }
    let low: u8 = (n % 10) as u8;
    out.push((0x30u8 + low) as char);
    proof {
        if n >= 10 {
            assert(final(out)@ =~= old(out)@ + decimal(n as nat));
        } else {
            assert(final(out)@ =~= old(out)@ + decimal(n as nat));
        }
    }
}

} // verus!
