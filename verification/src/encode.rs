//! Percent-encoding of text that goes into a query string.

use vstd::prelude::*;
use vstd::utf8::encode_utf8;

verus! {

/// The upper-case hexadecimal digit of `n`.
pub open spec fn hex_digit(n: int) -> char
    recommends
        0 <= n < 16,
{
    if n == 0 {
        '0'
    } else if n == 1 {
        '1'
    } else if n == 2 {
        '2'
    } else if n == 3 {
        '3'
    } else if n == 4 {
        '4'
    } else if n == 5 {
        '5'
    } else if n == 6 {
        '6'
    } else if n == 7 {
        '7'
    } else if n == 8 {
        '8'
    } else if n == 9 {
        '9'
    } else if n == 10 {
        'A'
    } else if n == 11 {
        'B'
    } else if n == 12 {
        'C'
    } else if n == 13 {
        'D'
    } else if n == 14 {
        'E'
    } else {
        'F'
    }
}

/// A percent sign and the two hexadecimal digits of `b`.
pub open spec fn percent_byte(b: u8) -> Seq<char> {
    seq!['%', hex_digit(b as int / 16), hex_digit(b as int % 16)]
}

/// Whether `b` is an ASCII letter or digit.
pub open spec fn is_alphanumeric(b: u8) -> bool {
    (0x30 <= b <= 0x39) || (0x41 <= b <= 0x5a) || (0x61 <= b <= 0x7a)
}

/// Whether a form field keeps the byte `b` as it is: letters, digits and
/// `*`, `-`, `.`, `_`.
pub open spec fn form_keeps(b: u8) -> bool {
    is_alphanumeric(b) || b == 0x2a || b == 0x2d || b == 0x2e || b == 0x5f
}

/// How a form field writes the byte `b`.
pub open spec fn form_byte(b: u8) -> Seq<char> {
    if form_keeps(b) {
        seq![b as char]
    } else if b == 0x20 {
        seq!['+']
    } else {
        percent_byte(b)
    }
}

/// How a form field writes `bytes`.
pub open spec fn form_encoded(bytes: Seq<u8>) -> Seq<char>
    decreases bytes.len(),
{
    if bytes.len() == 0 {
        Seq::empty()
    } else {
        form_encoded(bytes.drop_last()) + form_byte(bytes.last())
    }
}

/// Whether a URI component keeps the byte `b` as it is: letters, digits and
/// `-`, `.`, `_`, `~`.
pub open spec fn component_keeps(b: u8) -> bool {
    is_alphanumeric(b) || b == 0x2d || b == 0x2e || b == 0x5f || b == 0x7e
}

/// How a URI component writes `bytes`.
pub open spec fn component_encoded(bytes: Seq<u8>) -> Seq<char>
    decreases bytes.len(),
{
    if bytes.len() == 0 {
        Seq::empty()
    } else {
        component_encoded(bytes.drop_last()) + if component_keeps(bytes.last()) {
            seq![bytes.last() as char]
        } else {
            percent_byte(bytes.last())
        }
    }
}

/// How a form field writes the text `s`: its UTF-8 bytes, each as a form
/// field writes it.
pub open spec fn form_text(s: Seq<char>) -> Seq<char> {
    form_encoded(encode_utf8(s))
}

/// How a URI component writes the text `s`: its UTF-8 bytes, each as a URI
/// component writes it.
pub open spec fn component_text(s: Seq<char>) -> Seq<char> {
    component_encoded(encode_utf8(s))
}

/// `url::form_urlencoded::byte_serialize` on the UTF-8 bytes of `s`, its
/// pieces joined: each byte that a form field keeps stands as itself, a
/// space becomes `+`, and every other byte becomes `%` and its two
/// upper-case hexadecimal digits.
#[verifier::external_body]
pub(crate) fn form_encode(s: &str) -> (r: String)
    ensures
        r@ == form_text(s@),
{
    url::form_urlencoded::byte_serialize(s.as_bytes()).collect()
}

/// `urlencoding::encode` on `s`: each byte of its UTF-8 form that a URI
/// component keeps stands as itself, and every other byte becomes `%` and
/// its two upper-case hexadecimal digits.
#[verifier::external_body]
pub(crate) fn component_encode(s: &str) -> (r: String)
    ensures
        r@ == component_text(s@),
{
    urlencoding::encode(s).into_owned()
}

/// `s` as it stands in a form field of a query string.
pub fn encode(s: &str) -> (r: String)
    ensures
        r@ == form_text(s@),
{
    form_encode(s)
}

/// `s` as it stands in a component of a URI.
pub fn encode_component(s: &str) -> (r: String)
    ensures
        r@ == component_text(s@),
{
    component_encode(s)
}

} // verus!
