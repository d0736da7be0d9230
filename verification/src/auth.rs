//! The authentication gate: decides whether an inbound request may be
//! forwarded, from the configured shared secret and the inbound headers.

use vstd::prelude::*;
use vstd::utf8::valid_utf8;

use crate::bytes::bytes_eq;
use crate::config::{config_secret, Config};
use crate::headers::{fields_view, find_auth_value, first_auth_value, HeaderField};
use crate::transport::utf8_ok;

verus! {

/// Outcome of the authentication check. Every rejection is terminal: the
/// proxy answers the caller without any outbound call.
#[derive(Clone, Copy, PartialEq, Eq, Structural, Debug)]
pub enum AuthOutcome {
    /// The request may proceed to forwarding.
    Allow,
    /// A secret is configured and the request carries no authentication header.
    MissingAuthHeader,
    /// The authentication header is present but is not valid UTF-8.
    InvalidAuthHeaderEncoding,
    /// The authentication header decodes but differs from the secret.
    AuthMismatch,
}

/// What the authentication check decides. With no secret configured every
/// request is allowed; otherwise the first authentication header must be
/// valid UTF-8 and equal to the secret.
pub open spec fn spec_authorize(secret: Option<Seq<u8>>, headers: Seq<(Seq<u8>, Seq<u8>)>) -> AuthOutcome {
    match secret {
        Option::None => AuthOutcome::Allow,
        Option::Some(s) => match first_auth_value(headers) {
            Option::None => AuthOutcome::MissingAuthHeader,
            Option::Some(v) => if !valid_utf8(v) {
                AuthOutcome::InvalidAuthHeaderEncoding
            } else if v == s {
                AuthOutcome::Allow
            } else {
                AuthOutcome::AuthMismatch
            },
        },
    }
}

/// The authentication gate.
pub fn authorize(config: &Config, headers: &Vec<HeaderField>) -> (r: AuthOutcome)
    ensures
        r == spec_authorize(config_secret(*config), fields_view(headers@)),
{
    let secret: &Vec<u8> = match &config.auth {
        Option::None => {
            return AuthOutcome::Allow;
        },
        Option::Some(a) => match &a.header_auth {
            Option::None => {
                return AuthOutcome::Allow;
            },
            Option::Some(s) => s,
        },
    };
    match find_auth_value(headers) {
        Option::None => AuthOutcome::MissingAuthHeader,
        Option::Some(v) => {
            if !utf8_ok(v.as_slice()) {
                AuthOutcome::InvalidAuthHeaderEncoding
            } else if bytes_eq(v.as_slice(), secret.as_slice()) {
                AuthOutcome::Allow
            } else {
                AuthOutcome::AuthMismatch
            }
        },
    }
}

} // verus!
