//! Small text builders that the canonical forms are made of: decimal
//! numerals, fixed-width fields, hexadecimal digits and ASCII case folding.

use vstd::prelude::*;
use vstd::utf8::encode_utf8;

verus! {

/// `String::push` of std: the character is added at the end.
pub assume_specification[ String::push ](s: &mut String, ch: char)
    ensures
        final(s)@ == old(s)@.push(ch),
;

/// The character that writes the decimal digit `d`.
pub open spec fn digit_char(d: int) -> char
    recommends
        0 <= d < 10,
{
    ('0' as u8 + d) as char
}

/// The decimal numeral of `n`, without leading zeros.
pub open spec fn decimal_text(n: nat) -> Seq<char>
    decreases n,
{
    if n < 10 {
        seq![digit_char(n as int)]
    } else {
        decimal_text(n / 10).push(digit_char((n % 10) as int))
    }
}

/// The decimal numeral of `n`, padded with zeros on the left to exactly
/// `width` digits; the low `width` digits where `n` has more.
pub open spec fn padded_decimal_text(n: nat, width: nat) -> Seq<char>
    decreases width,
{
    if width == 0 {
        Seq::empty()
    } else {
        padded_decimal_text(n / 10, (width - 1) as nat).push(digit_char((n % 10) as int))
    }
}

/// Whether `s` is made of decimal digits alone.
pub open spec fn all_digits(s: Seq<char>) -> bool {
    forall|i: int| 0 <= i < s.len() ==> '0' <= #[trigger] s[i] <= '9'
}

/// `c` with an ASCII capital replaced by its small letter.
pub open spec fn ascii_lower_char(c: char) -> char {
    if 'A' <= c && c <= 'Z' {
        (c as u8 + 32) as char
    } else {
        c
    }
}

/// `s` with every ASCII capital replaced by its small letter.
pub open spec fn ascii_lower_text(s: Seq<char>) -> Seq<char> {
    s.map_values(|c: char| ascii_lower_char(c))
}

/// The character that writes the hexadecimal digit `d`, letters small.
pub open spec fn hex_digit_char(d: int) -> char
    recommends
        0 <= d < 16,
{
    if d < 10 {
        ('0' as u8 + d) as char
    } else {
        ('a' as u8 + d - 10) as char
    }
}

/// The hexadecimal text of `bytes`: two digits for each byte, the high
/// half first, letters small.
pub open spec fn hex_text(bytes: Seq<u8>) -> Seq<char> {
    Seq::new(
        2 * bytes.len(),
        |i: int|
            hex_digit_char(
                if i % 2 == 0 {
                    bytes[i / 2] as int / 16
                } else {
                    bytes[i / 2] as int % 16
                },
            ),
    )
}

/// Calls `hex::encode` of the `hex` crate. Trusted: each byte comes back as
/// its two hexadecimal digits, high half first, from the digits
/// `0123456789abcdef`, in the order of the bytes.
#[verifier::external_body]
pub(crate) fn hex_encode(bytes: &[u8]) -> (text: String)
    ensures
        text@ == hex_text(bytes@),
{
    hex::encode(bytes)
}

/// The number of bytes of `text` in UTF-8.
pub fn byte_length(text: &str) -> (n: usize)
    ensures
        n == encode_utf8(text@).len(),
{
    text.as_bytes().len()
}

/// The character of one decimal digit.
fn digit(d: u8) -> (c: char)
    requires
        d < 10,
    ensures
        c == digit_char(d as int),
{
    (('0' as u8) + d) as char
}

/// Appends the decimal numeral of `n` to `out`.
pub fn push_decimal(out: &mut String, n: usize)
    ensures
        final(out)@ == old(out)@ + decimal_text(n as nat),
    decreases n,
{
    if n >= 10 {
        push_decimal(out, n / 10);
    }
    let d: u8 = (n % 10) as u8;
    out.push(digit(d));
}

/// Appends the low `width` decimal digits of `n` to `out`, zeros included.
pub fn push_padded_decimal(out: &mut String, n: u32, width: u32)
    ensures
        final(out)@ == old(out)@ + padded_decimal_text(n as nat, width as nat),
    decreases width,
{
    if width > 0 {
        push_padded_decimal(out, n / 10, width - 1);
        let d: u8 = (n % 10) as u8;
        out.push(digit(d));
    }
}

/// `c` with an ASCII capital replaced by its small letter.
pub fn ascii_lower(c: char) -> (lower: char)
    ensures
        lower == ascii_lower_char(c),
{
    if 'A' <= c && c <= 'Z' {
        ((c as u8) + 32) as char
    } else {
        c
    }
}

/// Appends `s` to `out`, ASCII capitals replaced by small letters.
pub fn push_ascii_lower(out: &mut String, s: &str)
    ensures
        final(out)@ == old(out)@ + ascii_lower_text(s@),
{
    let ghost before = out@;
    for c in it: s.chars()
        invariant
            it.seq() == s@,
            out@ == before + ascii_lower_text(s@.take(it.index())),
    {
        assert(s@.take(it.index() + 1) == s@.take(it.index()).push(c));
        out.push(ascii_lower(c));
    }
    assert(s@.take(s@.len() as int) == s@);
}

/// A decimal numeral has one digit or more, and digits alone.
pub proof fn lemma_decimal_text_is_digits(n: nat)
    ensures
        decimal_text(n).len() >= 1,
        all_digits(decimal_text(n)),
    decreases n,
{
    if n >= 10 {
        lemma_decimal_text_is_digits(n / 10);
    }
}

/// A field padded to `width` digits has `width` characters, digits alone.
pub proof fn lemma_padded_decimal_text_is_digits(n: nat, width: nat)
    ensures
        padded_decimal_text(n, width).len() == width,
        all_digits(padded_decimal_text(n, width)),
    decreases width,
{
    if width > 0 {
        lemma_padded_decimal_text_is_digits(n / 10, (width - 1) as nat);
    }
}

} // verus!
