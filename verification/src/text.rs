//! Text building blocks: decimal numerals and simple cuts of a string.
//!
//! Every function states its result over the sequence of characters that a
//! string denotes, so callers can reason about whole messages.

use vstd::prelude::*;
use vstd::std_specs::iter::IteratorSpec;

verus! {

/// The ten decimal digits in order.
pub open spec fn digits() -> Seq<char> {
    seq!['0', '1', '2', '3', '4', '5', '6', '7', '8', '9']
}

/// The character that writes the digit `d`.
pub open spec fn digit_char(d: nat) -> char
    recommends
        d < 10,
{
    digits()[d as int]
}

/// The decimal numeral of `n`, without sign or leading zeros.
pub open spec fn decimal(n: nat) -> Seq<char>
    decreases n,
{
    if n < 10 {
        seq![digit_char(n)]
    } else {
        decimal(n / 10).push(digit_char(n % 10))
    }
}

/// The decimal numeral of `n`, with a leading `-` when `n` is negative.
pub open spec fn signed_decimal(n: int) -> Seq<char> {
    if n < 0 {
        seq!['-'] + decimal((-n) as nat)
    } else {
        decimal(n as nat)
    }
}

/// Number of leading characters of `s` that equal `c`.
pub open spec fn leading_run(s: Seq<char>, c: char) -> nat
    decreases s.len(),
{
    if s.len() > 0 && s[0] == c {
        1 + leading_run(s.drop_first(), c)
    } else {
        0
    }
}

/// `s` without its leading run of `c`.
pub open spec fn trim_leading(s: Seq<char>, c: char) -> Seq<char> {
    s.skip(leading_run(s, c) as int)
}

/// Index of the first `c` in `s`, or `s.len()` when there is none.
pub open spec fn first_index_of(s: Seq<char>, c: char) -> nat
    decreases s.len(),
{
    if s.len() == 0 || s[0] == c {
        0
    } else {
        1 + first_index_of(s.drop_first(), c)
    }
}

/// The part of `s` before its first `c`; all of `s` when there is none.
pub open spec fn field_before(s: Seq<char>, c: char) -> Seq<char> {
    s.take(first_index_of(s, c) as int)
}

/// The part of `s` after its first `c`, or `None` when `s` holds no `c`.
pub open spec fn rest_after(s: Seq<char>, c: char) -> Option<Seq<char>> {
    let at = first_index_of(s, c);
    if at < s.len() {
        Some(s.skip(at as int + 1))
    } else {
        None
    }
}

/// Whether `part` occurs in `text` as a run of neighbouring characters.
pub open spec fn contains_text(text: Seq<char>, part: Seq<char>) -> bool {
    exists|at: int|
        0 <= at && at + part.len() <= text.len() && #[trigger] text.subrange(
            at,
            at + part.len(),
        ) == part
}

/// `first_index_of` finds a position at or before the end, every character
/// before it differs from `c`, and the character at it, if any, is `c`.
pub proof fn lemma_first_index_of(s: Seq<char>, c: char)
    ensures
        first_index_of(s, c) <= s.len(),
        forall|i: int| 0 <= i < first_index_of(s, c) ==> s[i] != c,
        first_index_of(s, c) < s.len() ==> s[first_index_of(s, c) as int] == c,
    decreases s.len(),
{
    if s.len() == 0 || s[0] == c {
    } else {
        let tail = s.drop_first();
        lemma_first_index_of(tail, c);
        assert forall|i: int| 0 <= i < first_index_of(s, c) implies s[i] != c by {
            if i > 0 {
                assert(s[i] == tail[i - 1]);
            }
        }
    }
}

/// A position `k` is `first_index_of(s, c)` as soon as no earlier character
/// is `c` and `k` is the end of `s` or holds `c`.
pub proof fn lemma_first_index_of_unique(s: Seq<char>, c: char, k: nat)
    requires
        k <= s.len(),
        forall|i: int| 0 <= i < k ==> s[i] != c,
        k < s.len() ==> s[k as int] == c,
    ensures
        first_index_of(s, c) == k,
{
    lemma_first_index_of(s, c);
}

/// `leading_run` stays within `s`, every character of the run is `c`, and the
/// character after the run, if any, is not.
pub proof fn lemma_leading_run(s: Seq<char>, c: char)
    ensures
        leading_run(s, c) <= s.len(),
        forall|i: int| 0 <= i < leading_run(s, c) ==> s[i] == c,
        leading_run(s, c) < s.len() ==> s[leading_run(s, c) as int] != c,
    decreases s.len(),
{
    if s.len() > 0 && s[0] == c {
        let tail = s.drop_first();
        lemma_leading_run(tail, c);
        assert forall|i: int| 0 <= i < leading_run(s, c) implies s[i] == c by {
            if i > 0 {
                assert(s[i] == tail[i - 1]);
            }
        }
    }
}

/// A length `k` is `leading_run(s, c)` as soon as the first `k` characters
/// are `c` and the next one, if any, is not.
pub proof fn lemma_leading_run_unique(s: Seq<char>, c: char, k: nat)
    requires
        k <= s.len(),
        forall|i: int| 0 <= i < k ==> s[i] == c,
        k < s.len() ==> s[k as int] != c,
    ensures
        leading_run(s, c) == k,
{
    lemma_leading_run(s, c);
}

/// The one-character text of a digit.
pub(crate) fn digit_text(d: u128) -> (text: &'static str)
    requires
        d < 10,
    ensures
        text@ == seq![digit_char(d as nat)],
{
    proof {
        reveal_strlit("0");
        reveal_strlit("1");
        reveal_strlit("2");
        reveal_strlit("3");
        reveal_strlit("4");
        reveal_strlit("5");
        reveal_strlit("6");
        reveal_strlit("7");
        reveal_strlit("8");
        reveal_strlit("9");
    }
    if d == 0 {
        "0"
    } else if d == 1 {
        "1"
    } else if d == 2 {
        "2"
    } else if d == 3 {
        "3"
    } else if d == 4 {
        "4"
    } else if d == 5 {
        "5"
    } else if d == 6 {
        "6"
    } else if d == 7 {
        "7"
    } else if d == 8 {
        "8"
    } else {
        "9"
    }
}

/// Appends the decimal numeral of `n` to `out`.
pub fn append_decimal(out: &mut String, n: u128)
    ensures
        final(out)@ == old(out)@ + decimal(n as nat),
    decreases n,
{
    if n >= 10 {
        append_decimal(out, n / 10);
    }
    out.append(digit_text(n % 10));
}

/// Appends the decimal numeral of `n`, with a `-` in front of a negative one.
pub fn append_signed_decimal(out: &mut String, n: i64)
    ensures
        final(out)@ == old(out)@ + signed_decimal(n as int),
{
    if n < 0 {
        proof {
            reveal_strlit("-");
        }
        out.append("-");
        let magnitude: u128 = (-(n + 1)) as u128 + 1;
        append_decimal(out, magnitude);
    } else {
        append_decimal(out, n as u128);
    }
}

/// The first `count` characters of `s`, or all of `s` when it is shorter.
pub fn take_chars(s: &str, count: usize) -> (head: String)
    ensures
        head@ == s@.take(if count <= s@.len() { count as int } else { s@.len() as int }),
{
    let len: usize = s.unicode_len();
    let end: usize = if count <= len { count } else { len };
    s.substring_char(0, end).to_owned()
}

/// Counts the leading characters of `s` that equal `c`, in one pass.
fn leading_run_of(s: &str, c: char) -> (run: usize)
    ensures
        run == leading_run(s@, c),
        run <= s@.len(),
{
    broadcast use vstd::string::group_string_axioms;

    let len: usize = s.unicode_len();
    let mut rest = s.chars();
    let mut run: usize = 0;
    loop
        invariant_except_break
            rest.remaining() == s@.skip(run as int),
            rest.obeys_prophetic_iter_laws(),
        invariant
            run <= len,
            len == s@.len(),
            forall|i: int| 0 <= i < run ==> s@[i] == c,
        ensures
            run < len ==> s@[run as int] != c,
        decreases len - run,
    {
        if run == len {
            break;
        }
        match rest.next() {
            Some(ch) => {
                if ch != c {
                    break;
                }
            },
            None => {
                break;
            },
        }
        run = run + 1;
    }
    proof {
        lemma_leading_run_unique(s@, c, run as nat);
    }
    run
}

/// Finds the first `c` in `s`, in one pass.
fn first_index_in(s: &str, c: char) -> (at: usize)
    ensures
        at == first_index_of(s@, c),
        at <= s@.len(),
{
    broadcast use vstd::string::group_string_axioms;

    let len: usize = s.unicode_len();
    let mut rest = s.chars();
    let mut at: usize = 0;
    loop
        invariant_except_break
            rest.remaining() == s@.skip(at as int),
            rest.obeys_prophetic_iter_laws(),
        invariant
            at <= len,
            len == s@.len(),
            forall|i: int| 0 <= i < at ==> s@[i] != c,
        ensures
            at < len ==> s@[at as int] == c,
        decreases len - at,
    {
        if at == len {
            break;
        }
        match rest.next() {
            Some(ch) => {
                if ch == c {
                    break;
                }
            },
            None => {
                break;
            },
        }
        at = at + 1;
    }
    proof {
        lemma_first_index_of_unique(s@, c, at as nat);
    }
    at
}

/// `s` without the run of `c` that it starts with.
pub fn trim_leading_char(s: &str, c: char) -> (rest: String)
    ensures
        rest@ == trim_leading(s@, c),
{
    let len: usize = s.unicode_len();
    let run: usize = leading_run_of(s, c);
    s.substring_char(run, len).to_owned()
}

/// Cuts `s` at its first `c`: the part before it and, when `s` holds a `c`,
/// the part after it.
pub fn cut_at_first(s: &str, c: char) -> (parts: (String, Option<String>))
    ensures
        parts.0@ == field_before(s@, c),
        match parts.1 {
            Some(rest) => rest_after(s@, c) == Some(rest@),
            None => rest_after(s@, c) is None,
        },
{
    let len: usize = s.unicode_len();
    let at: usize = first_index_in(s, c);
    let before = s.substring_char(0, at).to_owned();
    if at < len {
        let rest = s.substring_char(at + 1, len).to_owned();
        (before, Some(rest))
    } else {
        (before, None)
    }
}

} // verus!
