//! Percent-encoding of URL components.
//!
//! The encoding is specified byte by byte over the UTF-8 encoding of the
//! input: alphanumerics and `-`, `.`, `_`, `~` pass through, every other byte
//! becomes `%` followed by two uppercase hex digits.

use vstd::prelude::*;
use vstd::utf8::encode_utf8;

verus! {

/// Bytes that percent-encoding leaves as they are: ASCII alphanumerics and
/// `-`, `.`, `_`, `~`.
pub open spec fn is_unreserved_byte(b: u8) -> bool {
    (48 <= b <= 57)  // '0' to '9'
     || (65 <= b <= 90)  // 'A' to 'Z'
     || (97 <= b <= 122)  // 'a' to 'z'
     || b == 45  // '-'
     || b == 46  // '.'
     || b == 95  // '_'
     || b == 126  // '~'

}

/// The uppercase hexadecimal digit character for a value below sixteen.
pub open spec fn hex_digit_char(d: int) -> char {
    if d < 10 {
        crate::text::digit_char(d)
    } else if d == 10 {
        'A'
    } else if d == 11 {
        'B'
    } else if d == 12 {
        'C'
    } else if d == 13 {
        'D'
    } else if d == 14 {
        'E'
    } else {
        'F'
    }
}

/// How one byte is rendered: unreserved bytes stand for themselves, all
/// others become a percent escape.
pub open spec fn encoded_byte(b: u8) -> Seq<char> {
    if is_unreserved_byte(b) {
        seq![b as char]
    } else {
        seq!['%', hex_digit_char(b as int / 16), hex_digit_char(b as int % 16)]
    }
}

/// The byte-wise percent-encoding of a byte sequence.
pub open spec fn encoded_bytes(bs: Seq<u8>) -> Seq<char>
    decreases bs.len(),
{
    if bs.len() == 0 {
        seq![]
    } else {
        encoded_byte(bs[0]) + encoded_bytes(bs.drop_first())
    }
}

/// The percent-encoding of a string: its UTF-8 bytes, encoded byte by byte.
pub open spec fn url_encoded(s: Seq<char>) -> Seq<char> {
    encoded_bytes(encode_utf8(s))
}

/// Relies on `urlencoding::encode`: it percent-encodes every byte of the
/// UTF-8 encoding of its input except alphanumerics and `-`, `.`, `_`, `~`,
/// writing escapes as `%` followed by two uppercase hex digits.
#[verifier::external_body]
pub(crate) fn percent_encode(s: &str) -> (r: String)
    ensures
        r@ == url_encoded(s@),
{
    urlencoding::encode(s).into_owned()
}

} // verus!
