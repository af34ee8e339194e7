//! Building request text: decimal numbers and query strings.

use vstd::prelude::*;
use vstd::string::{StrSliceExecFns, StringExecFns};

verus! {

/// The decimal digit `d`, as text.
pub open spec fn digit(d: nat) -> Seq<char> {
    if d == 0 {
        "0"@
    } else if d == 1 {
        "1"@
    } else if d == 2 {
        "2"@
    } else if d == 3 {
        "3"@
    } else if d == 4 {
        "4"@
    } else if d == 5 {
        "5"@
    } else if d == 6 {
        "6"@
    } else if d == 7 {
        "7"@
    } else if d == 8 {
        "8"@
    } else {
        "9"@
    }
}

/// `n` written in decimal, without sign or leading zeros.
pub open spec fn decimal(n: nat) -> Seq<char>
    decreases n,
{
    if n < 10 {
        digit(n)
    } else {
        decimal(n / 10) + digit(n % 10)
    }
}

/// `text` behind `prefix` where there is one, nothing where there is none.
pub open spec fn optional(prefix: Seq<char>, text: Option<String>) -> Seq<char> {
    match text {
        Some(t) => prefix + t@,
        None => Seq::empty(),
    }
}

fn digit_text(d: u64) -> (text: &'static str)
    requires
        d < 10,
    ensures
        text@ == digit(d as nat),
{
    if d == 0 {
        "0"
    } else if d == 1 {
        "1"
    } else if d == 2 {
        "2"
    } else if d == 3 {
        "3"
    } else if d == 4 {
        "4"
    } else if d == 5 {
        "5"
    } else if d == 6 {
        "6"
    } else if d == 7 {
        "7"
    } else if d == 8 {
        "8"
    } else {
        "9"
    }
}

/// Appends `n` in decimal to `out`.
pub fn append_decimal(out: &mut String, n: u64)
    ensures
        final(out)@ == old(out)@ + decimal(n as nat),
    decreases n,
{
    if n >= 10 {
        append_decimal(out, n / 10);
        out.append(digit_text(n % 10));
        assert(old(out)@ + decimal((n / 10) as nat) + digit((n % 10) as nat) =~= old(out)@ + (decimal(
            (n / 10) as nat,
        ) + digit((n % 10) as nat)));
    } else {
        out.append(digit_text(n));
    }
}

/// Appends `prefix` and `text` to `out` where `text` is there.
pub fn append_optional(out: &mut String, prefix: &str, text: &Option<String>)
    ensures
        final(out)@ == old(out)@ + optional(prefix@, *text),
{
    match text {
        Some(t) => {
            out.append(prefix);
            out.append(t.as_str());
            assert(old(out)@ + prefix@ + t@ =~= old(out)@ + (prefix@ + t@));
        },
        None => {
            assert(old(out)@ + Seq::<char>::empty() =~= old(out)@);
        },
    }
}

/// The two texts hold the same characters.
pub fn str_eq(a: &str, b: &str) -> (same: bool)
    ensures
        same == (a@ == b@),
{
    let x = a.to_owned();
    let y = b.to_owned();
    x == y
}

/// Position of the first `wanted` in `text` at or after `from`; the length
/// of `text` where there is none.
pub open spec fn first_char(text: Seq<char>, wanted: char, from: int) -> int
    decreases text.len() - from,
{
    if from < 0 || from >= text.len() {
        text.len() as int
    } else if text[from] == wanted {
        from
    } else {
        first_char(text, wanted, from + 1)
    }
}

/// Finds the first `wanted` in `text` at or after the character position
/// `from`. `count` is the number of characters of `text`.
pub fn find_char(text: &str, count: usize, wanted: char, from: usize) -> (at: usize)
    requires
        count == text@.len(),
        from <= count,
    ensures
        at == first_char(text@, wanted, from as int),
        from <= at <= count,
{
    let mut i: usize = from;
    while i < count
        invariant
            from <= i <= count,
            count == text@.len(),
            first_char(text@, wanted, from as int) == first_char(text@, wanted, i as int),
        decreases count - i,
    {
        if text.get_char(i) == wanted {
            return i;
        }
        i = i + 1;
    }
    count
}

/// What stands behind the last `sep` in `text`; all of `text` where it
/// holds no `sep`.
pub open spec fn after_last(text: Seq<char>, sep: char) -> Seq<char>
    decreases text.len(),
{
    if text.len() == 0 || text.last() == sep {
        Seq::empty()
    } else {
        after_last(text.drop_last(), sep).push(text.last())
    }
}

/// `after_last` is the end of the text from `from` on, if no `sep` stands
/// at or after `from` and one stands right before it, or `from` is 0.
pub proof fn lemma_after_last(text: Seq<char>, sep: char, from: int)
    requires
        0 <= from <= text.len(),
        from > 0 ==> text[from - 1] == sep,
        forall|i: int| from <= i < text.len() ==> text[i] != sep,
    ensures
        after_last(text, sep) == text.subrange(from, text.len() as int),
    decreases text.len(),
{
    if text.len() == 0 || from == text.len() {
        assert(text.subrange(from, text.len() as int) =~= Seq::empty());
    } else {
        let front = text.drop_last();
        lemma_after_last(front, sep, from);
        assert(text.subrange(from, text.len() as int) =~= front.subrange(
            from,
            front.len() as int,
        ).push(text.last()));
    }
}

/// The part of `text` behind its last `sep`.
pub fn tail_after<'a>(text: &'a str, sep: char) -> (tail: &'a str)
    ensures
        tail@ == after_last(text@, sep),
{
    let count = text.unicode_len();
    let mut from: usize = count;
    while from > 0 && text.get_char(from - 1) != sep
        invariant
            from <= count,
            count == text@.len(),
            forall|i: int| from <= i < count ==> text@[i] != sep,
        decreases from,
    {
        from = from - 1;
    }
    proof {
        lemma_after_last(text@, sep, from as int);
    }
    text.substring_char(from, count)
}

} // verus!
