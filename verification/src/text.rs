//! Text: the few operations on strings that names and messages need.

use vstd::prelude::*;
use vstd::string::StrSliceExecFns;

verus! {

/// The lower-case form of a text, as `str::to_lowercase` of the standard
/// library gives it: a function of the text alone, defined by the Unicode
/// case mappings and not written out here.
pub uninterp spec fn lowercased(text: Seq<char>) -> Seq<char>;

/// Calls `str::to_lowercase`. The contract only gives the result its name.
#[verifier::external_body]
pub(crate) fn lowercase(text: &str) -> (lower: String)
    ensures
        lower@ == lowercased(text@),
{
    text.to_lowercase()
}

/// Calls `String::push`, which appends one character at the end.
#[verifier::external_body]
pub(crate) fn push_char(text: &mut String, c: char)
    ensures
        final(text)@ == old(text)@.push(c),
{
    text.push(c)
}

/// The characters that a name may carry between its parts.
pub open spec fn is_separator(c: char) -> bool {
    c == '-' || c == '_' || c == ' '
}

/// A text without its separators; the other characters keep their order.
pub open spec fn stripped(text: Seq<char>) -> Seq<char> {
    text.filter(|c: char| !is_separator(c))
}

/// The form under which names are compared: lower case, no separators.
pub open spec fn normalized(text: Seq<char>) -> Seq<char> {
    stripped(lowercased(text))
}

/// Removes every `-`, `_` and space.
pub fn strip_separators(text: &str) -> (out: String)
    ensures
        out@ == stripped(text@),
{
    let n: usize = text.unicode_len();
    let mut out = String::new();
    let mut i: usize = 0;
    proof {
        assert(text@.subrange(0, 0) =~= Seq::<char>::empty());
        reveal(Seq::filter);
    }
    while i < n
        invariant
            n == text@.len(),
            i <= n,
            out@ == stripped(text@.subrange(0, i as int)),
        decreases n - i,
    {
        let c: char = text.get_char(i);
        proof {
            let next = text@.subrange(0, i + 1);
            assert(next.drop_last() =~= text@.subrange(0, i as int));
            assert(next.last() == c);
            reveal(Seq::filter);
        }
        if !(c == '-' || c == '_' || c == ' ') {
            push_char(&mut out, c);
        }
        i = i + 1;
    }
    proof {
        assert(text@.subrange(0, n as int) =~= text@);
    }
    out
}

/// The name as it is compared: lower case, without separators.
pub fn normalize(text: &str) -> (out: String)
    ensures
        out@ == normalized(text@),
{
    let lower = lowercase(text);
    strip_separators(lower.as_str())
}

/// The character of a decimal digit.
pub open spec fn digit(d: nat) -> char {
    if d == 0 {
        '0'
    } else if d == 1 {
        '1'
    } else if d == 2 {
        '2'
    } else if d == 3 {
        '3'
    } else if d == 4 {
        '4'
    } else if d == 5 {
        '5'
    } else if d == 6 {
        '6'
    } else if d == 7 {
        '7'
    } else if d == 8 {
        '8'
    } else {
        '9'
    }
}

/// A number in decimal notation, without leading zeros.
pub open spec fn decimal(n: nat) -> Seq<char>
    decreases n,
{
    if n < 10 {
        seq![digit(n)]
    } else {
        decimal(n / 10).push(digit(n % 10))
    }
}

fn digit_char(d: usize) -> (c: char)
    requires
        d < 10,
    ensures
        c == digit(d as nat),
{
    if d == 0 {
        '0'
    } else if d == 1 {
        '1'
    } else if d == 2 {
        '2'
    } else if d == 3 {
        '3'
    } else if d == 4 {
        '4'
    } else if d == 5 {
        '5'
    } else if d == 6 {
        '6'
    } else if d == 7 {
        '7'
    } else if d == 8 {
        '8'
    } else {
        '9'
    }
}

/// Appends `n` in decimal notation.
pub fn push_decimal(text: &mut String, n: usize)
    ensures
        final(text)@ == old(text)@ + decimal(n as nat),
    decreases n,
{
    if n < 10 {
        push_char(text, digit_char(n));
        assert(old(text)@.push(digit(n as nat)) =~= old(text)@ + decimal(n as nat));
    } else {
        push_decimal(text, n / 10);
        push_char(text, digit_char(n % 10));
        assert((old(text)@ + decimal((n / 10) as nat)).push(digit((n % 10) as nat)) =~= old(text)@
            + decimal(n as nat));
    }
}

} // verus!
