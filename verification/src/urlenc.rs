//! Percent-encoding of query text, specified byte-for-byte and carried out by
//! the `urlencoding` crate.

use vstd::prelude::*;
use vstd::utf8::encode_utf8;

verus! {

/// A byte that percent-encoding leaves as it is: an ASCII alphanumeric or one
/// of `-`, `.`, `_`, `~`.
pub open spec fn is_unreserved_byte(b: u8) -> bool {
    ||| (48 <= b && b <= 57)  // '0' ..= '9'
    ||| (65 <= b && b <= 90)  // 'A' ..= 'Z'
    ||| (97 <= b && b <= 122)  // 'a' ..= 'z'
    ||| b == 45  // '-'
    ||| b == 46  // '.'
    ||| b == 95  // '_'
    ||| b == 126  // '~'
}

/// The upper-case hex digit for a value below 16.
pub open spec fn hex_digit(d: u8) -> char
    recommends
        d < 16,
{
    if d < 10 {
        ((d + 48) as u8) as char  // '0' + d
    } else {
        ((d + 55) as u8) as char  // 'A' + (d - 10)
    }
}

/// How one byte appears in the encoded output: unreserved bytes stand as
/// themselves, every other byte as `%` followed by its two hex digits.
pub open spec fn encoded_byte(b: u8) -> Seq<char> {
    if is_unreserved_byte(b) {
        seq![b as char]
    } else {
        seq!['%', hex_digit(b / 16), hex_digit(b % 16)]
    }
}

/// The percent-encoding of a byte sequence: each byte's encoding, in order.
pub open spec fn percent_encoding(bytes: Seq<u8>) -> Seq<char>
    decreases bytes.len(),
{
    if bytes.len() == 0 {
        Seq::<char>::empty()
    } else {
        encoded_byte(bytes[0]) + percent_encoding(bytes.drop_first())
    }
}

/// Relies on `urlencoding::encode`: it percent-encodes every byte of the
/// UTF-8 representation except ASCII alphanumerics and `-`, `.`, `_`, `~`,
/// writing escaped bytes as `%` plus two upper-case hex digits.
#[verifier::external_body]
pub(crate) fn percent_encode(s: &String) -> (r: String)
    ensures
        r@ == percent_encoding(encode_utf8(s@)),
{
    urlencoding::encode(s.as_str()).into_owned()
}

} // verus!
