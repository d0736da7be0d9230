//! Validity of wire-level values (method tokens, header names and values,
//! status codes), as the outbound and response transports define it.
//!
//! Each executable check here calls the transport crate itself; the spec
//! predicates state, byte for byte, what those calls accept.

use vstd::prelude::*;

verus! {

/// A byte accepted in an HTTP method or header-name token: the nonzero
/// entries of the `METHOD_CHARS` and `HEADER_CHARS` tables of the `http`
/// crate, which underlies both transports.
pub open spec fn token_byte(b: u8) -> bool {
    ||| b == 33  // '!'
    ||| 35 <= b <= 39  // '#' '$' '%' '&' '\''
    ||| b == 42  // '*'
    ||| b == 43  // '+'
    ||| b == 45  // '-'
    ||| b == 46  // '.'
    ||| 48 <= b <= 57  // '0'..'9'
    ||| 65 <= b <= 90  // 'A'..'Z'
    ||| 94 <= b <= 96  // '^' '_' '`'
    ||| 97 <= b <= 122  // 'a'..'z'
    ||| b == 124  // '|'
    ||| b == 126  // '~'
}

/// A byte string the outbound transport accepts as an HTTP method.
pub open spec fn valid_method_token(s: Seq<u8>) -> bool {
    s.len() >= 1 && forall|i: int| 0 <= i < s.len() ==> token_byte(#[trigger] s[i])
}

/// A byte string the outbound transport accepts as a header name
/// (upper-case letters are normalized to lower case on acceptance).
pub open spec fn valid_header_name(s: Seq<u8>) -> bool {
    1 <= s.len() <= 65535 && forall|i: int| 0 <= i < s.len() ==> token_byte(#[trigger] s[i])
}

/// A byte accepted inside a header value: tab, or anything from space on
/// except delete.
pub open spec fn value_byte(b: u8) -> bool {
    b == 9 || (32 <= b && b != 127)
}

/// A byte string the outbound transport accepts as a header value.
pub open spec fn valid_header_value(s: Seq<u8>) -> bool {
    forall|i: int| 0 <= i < s.len() ==> value_byte(#[trigger] s[i])
}

/// A byte of a header value that is representable as a string:
/// visible ASCII, space, or tab.
pub open spec fn str_byte(b: u8) -> bool {
    b == 9 || (32 <= b < 127)
}

/// A header value representable as a string by the transports.
pub open spec fn str_representable(s: Seq<u8>) -> bool {
    forall|i: int| 0 <= i < s.len() ==> str_byte(#[trigger] s[i])
}

/// A numeric status code the response transport accepts.
pub open spec fn valid_status(s: u16) -> bool {
    100 <= s < 1000
}

/// Relies on `reqwest::Method::from_bytes` (the `http` crate's method
/// parser): it accepts exactly the nonempty strings of token bytes.
#[verifier::external_body]
pub(crate) fn method_bytes_ok(b: &[u8]) -> (r: bool)
    ensures
        r == valid_method_token(b@),
{
    reqwest::Method::from_bytes(b).is_ok()
}

/// Relies on `reqwest::header::HeaderName::from_bytes`: it accepts exactly
/// the strings of 1 to 65535 token bytes.
#[verifier::external_body]
pub(crate) fn header_name_ok(b: &[u8]) -> (r: bool)
    ensures
        r == valid_header_name(b@),
{
    reqwest::header::HeaderName::from_bytes(b).is_ok()
}

/// Relies on `reqwest::header::HeaderValue::from_bytes`: it accepts exactly
/// the strings whose bytes are tab or at least space, delete excluded.
#[verifier::external_body]
pub(crate) fn header_value_ok(b: &[u8]) -> (r: bool)
    ensures
        r == valid_header_value(b@),
{
    reqwest::header::HeaderValue::from_bytes(b).is_ok()
}

/// Relies on `reqwest::header::HeaderValue::from_bytes` and
/// `HeaderValue::to_str`: a value converts to a string exactly when every
/// byte is tab, space, or visible ASCII.
#[verifier::external_body]
pub(crate) fn value_str_ok(b: &[u8]) -> (r: bool)
    ensures
        r == str_representable(b@),
{
    match reqwest::header::HeaderValue::from_bytes(b) {
        Ok(v) => v.to_str().is_ok(),
        Err(_) => false,
    }
}

/// Relies on `actix_web::http::StatusCode::from_u16`: it accepts exactly
/// the codes from 100 through 999.
#[verifier::external_body]
pub(crate) fn status_ok(s: u16) -> (r: bool)
    ensures
        r == valid_status(s),
{
    actix_web::http::StatusCode::from_u16(s).is_ok()
}

/// Relies on `core::str::from_utf8`: it succeeds exactly on valid UTF-8.
#[verifier::external_body]
pub(crate) fn utf8_ok(b: &[u8]) -> (r: bool)
    ensures
        r == vstd::utf8::valid_utf8(b@),
{
    core::str::from_utf8(b).is_ok()
}

} // verus!
