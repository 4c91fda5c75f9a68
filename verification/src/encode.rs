//! Percent-encoding of query parameter values.

use vstd::prelude::*;
use vstd::string::*;

use crate::numstr::spec_digit;

verus! {

/// `c` is plain ASCII.
pub open spec fn is_ascii_char(c: char) -> bool {
    (c as u32) < 128
}

/// Every character of `s` is plain ASCII.
pub open spec fn is_ascii_seq(s: Seq<char>) -> bool {
    forall|i: int| 0 <= i < s.len() ==> is_ascii_char(#[trigger] s[i])
}

/// Characters that percent-encoding leaves as they are.
pub open spec fn is_unreserved(c: char) -> bool {
    ('a' as u32 <= c as u32 && c as u32 <= 'z' as u32) || ('A' as u32 <= c as u32 && c as u32
        <= 'Z' as u32) || ('0' as u32 <= c as u32 && c as u32 <= '9' as u32) || c == '-' || c == '.'
        || c == '_' || c == '~'
}

/// The character for the hexadecimal digit `d`, upper case.
pub open spec fn spec_hex_digit(d: int) -> char {
    if d < 10 {
        spec_digit(d)
    } else if d == 10 {
        'A'
    } else if d == 11 {
        'B'
    } else if d == 12 {
        'C'
    } else if d == 13 {
        'D'
    } else if d == 14 {
        'E'
    } else {
        'F'
    }
}

/// What one ASCII character encodes to: itself when unreserved, else a
/// percent escape of its code, two upper-case hex digits.
pub open spec fn spec_encode_char(c: char) -> Seq<char> {
    if is_unreserved(c) {
        seq![c]
    } else {
        seq!['%', spec_hex_digit(c as u32 as int / 16), spec_hex_digit(c as u32 as int % 16)]
    }
}

/// The percent-encoding of an ASCII character sequence.
pub open spec fn spec_url_encode(s: Seq<char>) -> Seq<char>
    decreases s.len(),
{
    if s.len() == 0 {
        Seq::empty()
    } else {
        spec_encode_char(s[0]) + spec_url_encode(s.skip(1))
    }
}

/// Bytes that percent-encoding leaves as they are: the ASCII
/// alphanumerics and `-`, `.`, `_`, `~`.
pub open spec fn is_unreserved_byte(b: u8) -> bool {
    (48 <= b && b <= 57) || (65 <= b && b <= 90) || (97 <= b && b <= 122) || b == 45 || b == 46
        || b == 95 || b == 126
}

/// What one byte encodes to: itself, one ASCII character, when
/// unreserved; else a percent escape of its value, two upper-case hex
/// digits.
pub open spec fn spec_encode_byte(b: u8) -> Seq<char> {
    if is_unreserved_byte(b) {
        seq![b as char]
    } else {
        seq!['%', spec_hex_digit(b as int / 16), spec_hex_digit(b as int % 16)]
    }
}

/// The percent-encoding of a byte string.
pub open spec fn spec_url_encode_bytes(bs: Seq<u8>) -> Seq<char>
    decreases bs.len(),
{
    if bs.len() == 0 {
        Seq::empty()
    } else {
        spec_encode_byte(bs[0]) + spec_url_encode_bytes(bs.skip(1))
    }
}

/// Relies on urlencoding::encode: percent-encodes every byte of the
/// text's UTF-8 form except the ASCII alphanumerics and `-`, `_`, `.`,
/// `~`, using upper-case hex digits. For ASCII input each byte is one
/// character, so the result is also the character-wise encoding.
#[verifier::external_body]
pub(crate) fn url_encode(s: &str) -> (r: String)
    ensures
        r@ == spec_url_encode_bytes(s.spec_bytes()),
        is_ascii_seq(s@) ==> r@ == spec_url_encode(s@),
{
    urlencoding::encode(s).into_owned()
}

} // verus!
