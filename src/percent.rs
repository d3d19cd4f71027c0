//! Percent-encoding of request bodies, through the `urlencoding` crate.
//!
//! Both directions are stated byte by byte over the UTF-8 encoding of a string.

use vstd::prelude::*;
use vstd::utf8::{encode_utf8, valid_utf8};

verus! {

/// A byte that `urlencoding::encode` leaves as it is: ASCII alphanumerics and `-`, `.`, `_`, `~`.
pub open spec fn is_unreserved(c: u8) -> bool {
    (0x30 <= c <= 0x39) || (0x41 <= c <= 0x5a) || (0x61 <= c <= 0x7a) || c == 0x2d || c == 0x2e
        || c == 0x5f || c == 0x7e
}

/// The upper-case hexadecimal digit of a value below 16.
pub open spec fn hex_digit(d: u8) -> u8
    recommends
        d < 16,
{
    if d < 10 {
        (0x30 + d) as u8
    } else {
        (0x41 + d - 10) as u8
    }
}

/// Whether a byte is a hexadecimal digit, of either case.
pub open spec fn is_hex(c: u8) -> bool {
    (0x30 <= c <= 0x39) || (0x41 <= c <= 0x46) || (0x61 <= c <= 0x66)
}

/// The value of a hexadecimal digit.
pub open spec fn hex_value(c: u8) -> u8 {
    if 0x30 <= c <= 0x39 {
        (c - 0x30) as u8
    } else if 0x41 <= c <= 0x46 {
        (c - 0x41 + 10) as u8
    } else {
        (c - 0x61 + 10) as u8
    }
}

/// Percent-encoding of bytes: every byte but the unreserved ones becomes `%XY`.
pub open spec fn percent_encode(b: Seq<u8>) -> Seq<u8>
    decreases b.len(),
{
    if b.len() == 0 {
        Seq::empty()
    } else {
        let head = if is_unreserved(b[0]) {
            seq![b[0]]
        } else {
            seq![0x25u8, hex_digit(b[0] / 16), hex_digit(b[0] % 16)]
        };
        head + percent_encode(b.drop_first())
    }
}

/// Whether `b` starts with an escape: `%` and two hexadecimal digits.
pub open spec fn starts_with_escape(b: Seq<u8>) -> bool {
    b.len() >= 3 && b[0] == 0x25 && is_hex(b[1]) && is_hex(b[2])
}

/// Percent-decoding of bytes: each escape becomes the byte it names, every
/// other byte (a lone `%` and `+` among them) stays.
pub open spec fn percent_decode(b: Seq<u8>) -> Seq<u8>
    decreases b.len(),
{
    if b.len() == 0 {
        Seq::empty()
    } else if starts_with_escape(b) {
        seq![(hex_value(b[1]) * 16 + hex_value(b[2])) as u8] + percent_decode(b.subrange(3, b.len() as int))
    } else {
        seq![b[0]] + percent_decode(b.drop_first())
    }
}

/// Percent-decoding never lengthens: each escape gives one byte for three,
/// and every other byte stays. A decoding that does not shorten changes nothing.
pub proof fn lemma_decode_shortens_or_keeps(b: Seq<u8>)
    ensures
        percent_decode(b).len() <= b.len(),
        percent_decode(b).len() == b.len() ==> percent_decode(b) == b,
    decreases b.len(),
{
    if b.len() == 0 {
        assert(percent_decode(b) =~= b);
    } else if starts_with_escape(b) {
        lemma_decode_shortens_or_keeps(b.subrange(3, b.len() as int));
    } else {
        lemma_decode_shortens_or_keeps(b.drop_first());
        if percent_decode(b).len() == b.len() {
            assert(percent_decode(b) =~= seq![b[0]] + b.drop_first());
            assert(percent_decode(b) =~= b);
        }
    }
}

#[verifier::external_type_specification]
#[verifier::external_body]
pub struct ExFromUtf8Error(std::string::FromUtf8Error);

/// Relies on `urlencoding::encode`: each byte of the UTF-8 form of `s` is kept
/// when unreserved and written as `%` with two upper-case hex digits otherwise.
#[verifier::external_body]
pub(crate) fn url_encode(s: &str) -> (r: String)
    ensures
        encode_utf8(r@) == percent_encode(encode_utf8(s@)),
{
    urlencoding::encode(s).into_owned()
}

/// Relies on `urlencoding::decode`: the bytes of `s` are percent-decoded, and
/// the result is returned when it is valid UTF-8, an error otherwise.
#[verifier::external_body]
pub(crate) fn url_decode(s: &str) -> (r: Result<String, std::string::FromUtf8Error>)
    ensures
        r is Ok <==> valid_utf8(percent_decode(encode_utf8(s@))),
        r matches Ok(d) ==> encode_utf8(d@) == percent_decode(encode_utf8(s@)),
{
    urlencoding::decode(s).map(|d| d.into_owned())
}

} // verus!
