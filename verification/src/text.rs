//! Strings: the `compact_str` strings that nodes hold, lengths in bytes, and
//! decimal numerals.

use compact_str::CompactString;
use vstd::prelude::*;
use vstd::utf8::encode_utf8;
use vstd::utf8::is_ascii_chars_encode_utf8;

verus! {

/// `compact_str::CompactString`, opaque to the verifier.
#[verifier::external_type_specification]
#[verifier::external_body]
pub struct ExCompactString(CompactString);

/// The characters that a compact string holds.
pub uninterp spec fn text_of(s: CompactString) -> Seq<char>;

/// Calls `CompactString::new`. Claims that the new string holds the characters
/// of `text`.
#[verifier::external_body]
pub(crate) fn compact_from(text: &str) -> (s: CompactString)
    ensures
        text_of(s) == text@,
{
    CompactString::new(text)
}

/// Calls `CompactString::as_str`. Claims that the slice holds the characters of
/// the string.
#[verifier::external_body]
pub(crate) fn compact_as_str<'s>(s: &'s CompactString) -> (text: &'s str)
    ensures
        text@ == text_of(*s),
{
    s.as_str()
}

/// `Clone::clone` of `CompactString`. Claims that the copy holds the same
/// characters.
pub assume_specification[ <CompactString as Clone>::clone ](s: &CompactString) -> (copy:
    CompactString)
    ensures
        text_of(copy) == text_of(*s),
;

/// The number of bytes that `text` takes in UTF-8, which is the width that the
/// layout reserves for it.
pub open spec fn byte_len(text: Seq<char>) -> nat {
    encode_utf8(text).len()
}

/// The length of `text` in bytes.
pub(crate) fn str_len(text: &str) -> (len: usize)
    ensures
        len == byte_len(text@),
{
    text.as_bytes().len()
}

/// Whether every character of `text` is a printable ASCII character, so that
/// each takes one byte and one column.
pub open spec fn is_plain(text: Seq<char>) -> bool {
    forall|i: int| 0 <= i < text.len() ==> ' ' <= #[trigger] text[i] <= '~'
}

/// The length in bytes of a concatenation is the sum of the lengths.
pub proof fn lemma_byte_len_concat(a: Seq<char>, b: Seq<char>)
    ensures
        byte_len(a + b) == byte_len(a) + byte_len(b),
    decreases a.len(),
{
    if a.len() > 0 {
        lemma_byte_len_concat(a.drop_first(), b);
        assert((a + b).drop_first() =~= a.drop_first() + b);
    }
}

/// A plain text takes as many bytes as it has characters.
pub proof fn lemma_byte_len_plain(text: Seq<char>)
    requires
        is_plain(text),
    ensures
        byte_len(text) == text.len(),
{
    is_ascii_chars_encode_utf8(text);
}

/// The character of the decimal digit `d`.
pub open spec fn digit(d: nat) -> char {
    if d == 0 {
        '0'
    } else if d == 1 {
        '1'
    } else if d == 2 {
        '2'
    } else if d == 3 {
        '3'
    } else if d == 4 {
        '4'
    } else if d == 5 {
        '5'
    } else if d == 6 {
        '6'
    } else if d == 7 {
        '7'
    } else if d == 8 {
        '8'
    } else {
        '9'
    }
}

/// The decimal numeral of `n`, without leading zeros.
pub open spec fn decimal(n: nat) -> Seq<char>
    decreases n,
{
    if n < 10 {
        seq![digit(n)]
    } else {
        decimal(n / 10).push(digit(n % 10))
    }
}

/// The one-character string of a decimal digit.
fn digit_str(d: usize) -> (s: &'static str)
    requires
        d < 10,
    ensures
        s@ == seq![digit(d as nat)],
{
    proof {
        reveal_strlit("0");
        reveal_strlit("1");
        reveal_strlit("2");
        reveal_strlit("3");
        reveal_strlit("4");
        reveal_strlit("5");
        reveal_strlit("6");
        reveal_strlit("7");
        reveal_strlit("8");
        reveal_strlit("9");
    }
    let s: &'static str = if d == 0 {
        "0"
    } else if d == 1 {
        "1"
    } else if d == 2 {
        "2"
    } else if d == 3 {
        "3"
    } else if d == 4 {
        "4"
    } else if d == 5 {
        "5"
    } else if d == 6 {
        "6"
    } else if d == 7 {
        "7"
    } else if d == 8 {
        "8"
    } else {
        "9"
    };
    s
}

/// Appends the decimal numeral of `n` to `out`.
pub(crate) fn push_decimal(out: &mut String, n: usize)
    ensures
        final(out)@ == old(out)@ + decimal(n as nat),
    decreases n,
{
    if n < 10 {
        out.append(digit_str(n));
    } else {
        push_decimal(out, n / 10);
        out.append(digit_str(n % 10));
    }
}

} // verus!
