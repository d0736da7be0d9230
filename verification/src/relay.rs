//! The response relay: copies upstream status, headers and body into the
//! answer to the original caller, degrading safely where the response
//! transport cannot represent a value. Also the proxy's own replies: the
//! texts and status codes of every terminal rejection, and the liveness
//! greeting.

use vstd::prelude::*;

use crate::bytes::copy_bytes;
use crate::headers::{fields_view, lemma_filter_step, HeaderField};
use crate::proxy::Rejection;
use crate::transport::{status_ok, str_representable, valid_status, value_str_ok};

verus! {

/// An upstream header field the relay keeps: one whose value the response
/// transport can represent as a string. Others are silently omitted.
pub open spec fn relay_kept(p: (Seq<u8>, Seq<u8>)) -> bool {
    str_representable(p.1)
}

/// The relay's filter as a single predicate value.
pub open spec fn relay_pred() -> spec_fn((Seq<u8>, Seq<u8>)) -> bool {
    |p: (Seq<u8>, Seq<u8>)| relay_kept(p)
}

/// The status the caller sees: the upstream one, or the server-error
/// fallback when it lies outside the representable range.
pub open spec fn spec_relay_status(s: u16) -> u16 {
    if valid_status(s) {
        s
    } else {
        500
    }
}

/// The answer relayed to the original caller.
pub struct RelayedResponse {
    pub status: u16,
    pub headers: Vec<HeaderField>,
    pub body: Vec<u8>,
}

/// Builds the caller's answer from the upstream status, headers and body:
/// the status falls back to 500 when out of range, headers whose value is
/// not string-representable are omitted, and the body is copied verbatim.
pub fn relay_response(status: u16, headers: &Vec<HeaderField>, body: Vec<u8>) -> (r: RelayedResponse)
    ensures
        r.status == spec_relay_status(status),
        fields_view(r.headers@) == fields_view(headers@).filter(relay_pred()),
        r.body@ == body@,
{
    let out_status: u16 = if status_ok(status) {
        status
    } else {
        500
    };
    let mut out: Vec<HeaderField> = Vec::new();
    let n = headers.len();
    assert(fields_view(headers@.take(0)) =~= Seq::<(Seq<u8>, Seq<u8>)>::empty());
    for i in 0..n
        invariant
            n == headers.len(),
            fields_view(out@) == fields_view(headers@.take(i as int)).filter(relay_pred()),
    {
        let h = &headers[i];
        if value_str_ok(h.value.as_slice()) {
            let copy = HeaderField {
                name: copy_bytes(h.name.as_slice()),
                value: copy_bytes(h.value.as_slice()),
            };
            proof {
                assert(copy@ == h@);
            }
            out.push(copy);
        }
        proof {
            lemma_filter_step(headers@, relay_pred(), i as int);
            assert(fields_view(out@) =~= fields_view(headers@.take(i + 1)).filter(relay_pred()));
        }
    }
    proof {
        assert(headers@.take(n as int) =~= headers@);
    }
    RelayedResponse { status: out_status, headers: out, body }
}

/// The status code answering each rejection: client errors for a missing
/// target or a malformed or absent credential, unauthorized for a wrong
/// one, server errors for upstream failures.
pub open spec fn spec_rejection_status(k: Rejection) -> u16 {
    match k {
        Rejection::MissingUrl => 400,
        Rejection::MissingAuthHeader => 400,
        Rejection::InvalidAuthHeader => 400,
        Rejection::Unauthorized => 401,
        Rejection::UpstreamUnreachable => 500,
        Rejection::UpstreamBodyReadFailure => 500,
    }
}

/// The body text answering each rejection. Short and non-sensitive: never
/// the secret, never an internal error detail.
pub open spec fn rejection_text(k: Rejection) -> Seq<char> {
    match k {
        Rejection::MissingUrl => "Missing 'url' query parameter"@,
        Rejection::MissingAuthHeader => "Missing header_auth in request headers"@,
        Rejection::InvalidAuthHeader => "Invalid header_auth value"@,
        Rejection::Unauthorized => "Unauthorized"@,
        Rejection::UpstreamUnreachable => "Failed to send request"@,
        Rejection::UpstreamBodyReadFailure => "Failed to read response"@,
    }
}

/// The status code of a rejection's reply.
pub fn rejection_status(k: Rejection) -> (s: u16)
    ensures
        s == spec_rejection_status(k),
{
    match k {
        Rejection::MissingUrl => 400,
        Rejection::MissingAuthHeader => 400,
        Rejection::InvalidAuthHeader => 400,
        Rejection::Unauthorized => 401,
        Rejection::UpstreamUnreachable => 500,
        Rejection::UpstreamBodyReadFailure => 500,
    }
}

/// The body of a rejection's reply.
pub fn rejection_message(k: Rejection) -> (m: String)
    ensures
        m@ == rejection_text(k),
{
    match k {
        Rejection::MissingUrl => "Missing 'url' query parameter".to_owned(),
        Rejection::MissingAuthHeader => "Missing header_auth in request headers".to_owned(),
        Rejection::InvalidAuthHeader => "Invalid header_auth value".to_owned(),
        Rejection::Unauthorized => "Unauthorized".to_owned(),
        Rejection::UpstreamUnreachable => "Failed to send request".to_owned(),
        Rejection::UpstreamBodyReadFailure => "Failed to read response".to_owned(),
    }
}

/// The liveness greeting served at the root path.
pub fn hello_reply() -> (r: (u16, String))
    ensures
        r.0 == 200,
        r.1@ == "Hello, world!"@,
{
    (200, "Hello, world!".to_owned())
}

} // verus!
