//! The forwarding pipeline: authentication gate, then outbound request
//! construction. The result is either a terminal rejection, answered to
//! the caller at once, or a fully built outbound request for the host to
//! issue — never both, and exactly one per inbound request.

use vstd::prelude::*;

use crate::auth::{authorize, spec_authorize, AuthOutcome};
use crate::bytes::copy_bytes;
use crate::config::{config_secret, Config};
use crate::headers::{convert_headers, fields_view, kept_pred, HeaderField};
use crate::query::{last_value, params_view, query_get, QueryParam};
use crate::transport::{method_bytes_ok, valid_method_token};

verus! {

/// Every terminal answer the proxy gives by itself, before or instead of
/// relaying an upstream response.
#[derive(Clone, Copy, PartialEq, Eq, Structural, Debug)]
pub enum Rejection {
    /// The `url` query parameter is absent.
    MissingUrl,
    /// A secret is configured and the authentication header is absent.
    MissingAuthHeader,
    /// The authentication header is present but not valid UTF-8.
    InvalidAuthHeader,
    /// The authentication header decodes but differs from the secret.
    Unauthorized,
    /// The outbound call itself failed (DNS, connect, timeout, TLS).
    UpstreamUnreachable,
    /// The upstream response body could not be read.
    UpstreamBodyReadFailure,
}

/// The outbound request the host is to issue.
pub struct OutboundRequest {
    /// The method token, already fallen back to `GET` if the inbound one
    /// is not a valid token.
    pub method: Vec<u8>,
    /// The target, taken verbatim from the `url` query parameter.
    pub url: Vec<u8>,
    /// The inbound body, or nothing when it was empty: an empty inbound
    /// body must not force a body-bearing outbound request.
    pub body: Option<Vec<u8>>,
    /// The translated inbound headers, present exactly when the caller
    /// opted in with the `header` query parameter.
    pub headers: Option<Vec<HeaderField>>,
}

/// What the pipeline decided for one inbound request.
pub enum Decision {
    /// Answer the caller at once; no outbound call is made.
    Reject(Rejection),
    /// Issue this outbound request and relay its response.
    Forward(OutboundRequest),
}

/// Mathematical image of an outbound request.
pub struct OutboundRequestModel {
    pub method: Seq<u8>,
    pub url: Seq<u8>,
    pub body: Option<Seq<u8>>,
    pub headers: Option<Seq<(Seq<u8>, Seq<u8>)>>,
}

/// Mathematical image of a decision.
pub enum DecisionModel {
    Reject(Rejection),
    Forward(OutboundRequestModel),
}

impl View for OutboundRequest {
    type V = OutboundRequestModel;

    open spec fn view(&self) -> OutboundRequestModel {
        OutboundRequestModel {
            method: self.method@,
            url: self.url@,
            body: match self.body {
                Option::None => Option::None,
                Option::Some(b) => Option::Some(b@),
            },
            headers: match self.headers {
                Option::None => Option::None,
                Option::Some(hs) => Option::Some(fields_view(hs@)),
            },
        }
    }
}

impl View for Decision {
    type V = DecisionModel;

    open spec fn view(&self) -> DecisionModel {
        match self {
            Decision::Reject(k) => DecisionModel::Reject(*k),
            Decision::Forward(o) => DecisionModel::Forward(o@),
        }
    }
}

/// The key of the mandatory target parameter (`url`).
pub open spec fn url_key() -> Seq<u8> {
    seq![117u8, 114u8, 108u8]
}

/// The key whose mere presence opts into header forwarding (`header`).
pub open spec fn header_key() -> Seq<u8> {
    seq![104u8, 101u8, 97u8, 100u8, 101u8, 114u8]
}

/// The fallback method (`GET`).
pub open spec fn get_method() -> Seq<u8> {
    seq![71u8, 69u8, 84u8]
}

/// The rejection answering each failed authentication outcome.
pub open spec fn rejection_of_auth(a: AuthOutcome) -> Rejection {
    match a {
        AuthOutcome::Allow => Rejection::Unauthorized,  // never reached: Allow is not rejected
        AuthOutcome::MissingAuthHeader => Rejection::MissingAuthHeader,
        AuthOutcome::InvalidAuthHeaderEncoding => Rejection::InvalidAuthHeader,
        AuthOutcome::AuthMismatch => Rejection::Unauthorized,
    }
}

/// The whole pre-upstream pipeline as one function of the request:
/// gate first; then the mandatory `url` parameter; then the outbound
/// request, with the method fallen back to `GET` when not a valid token,
/// the body attached only when nonempty, and the translated headers
/// attached only when the `header` parameter is present.
pub open spec fn spec_handle(
    secret: Option<Seq<u8>>,
    method: Seq<u8>,
    headers: Seq<(Seq<u8>, Seq<u8>)>,
    body: Seq<u8>,
    params: Seq<(Seq<u8>, Seq<u8>)>,
) -> DecisionModel {
    let auth = spec_authorize(secret, headers);
    if auth != AuthOutcome::Allow {
        DecisionModel::Reject(rejection_of_auth(auth))
    } else {
        match last_value(params, url_key()) {
            Option::None => DecisionModel::Reject(Rejection::MissingUrl),
            Option::Some(u) => DecisionModel::Forward(
                OutboundRequestModel {
                    method: if valid_method_token(method) {
                        method
                    } else {
                        get_method()
                    },
                    url: u,
                    body: if body.len() == 0 {
                        Option::None
                    } else {
                        Option::Some(body)
                    },
                    headers: if last_value(params, header_key()) is Some {
                        Option::Some(headers.filter(kept_pred()))
                    } else {
                        Option::None
                    },
                },
            ),
        }
    }
}

/// The `url` key as a byte vector.
pub fn url_key_bytes() -> (v: Vec<u8>)
    ensures
        v@ == url_key(),
{
    let mut v: Vec<u8> = Vec::new();
    v.push(117);
    v.push(114);
    v.push(108);
    assert(v@ =~= url_key());
    v
}

/// The `header` key as a byte vector.
pub fn header_key_bytes() -> (v: Vec<u8>)
    ensures
        v@ == header_key(),
{
    let mut v: Vec<u8> = Vec::new();
    v.push(104);
    v.push(101);
    v.push(97);
    v.push(100);
    v.push(101);
    v.push(114);
    assert(v@ =~= header_key());
    v
}

/// The fallback method as a byte vector.
pub fn get_method_bytes() -> (v: Vec<u8>)
    ensures
        v@ == get_method(),
{
    let mut v: Vec<u8> = Vec::new();
    v.push(71);
    v.push(69);
    v.push(84);
    assert(v@ =~= get_method());
    v
}

/// Decides one inbound request: the executable pipeline, which returns
/// exactly what `spec_handle` says for it.
pub fn handle_proxy(
    config: &Config,
    method: &Vec<u8>,
    headers: &Vec<HeaderField>,
    body: &Vec<u8>,
    params: &Vec<QueryParam>,
) -> (d: Decision)
    ensures
        d@ == spec_handle(
            config_secret(*config),
            method@,
            fields_view(headers@),
            body@,
            params_view(params@),
        ),
{
    match authorize(config, headers) {
        AuthOutcome::Allow => {},
        AuthOutcome::MissingAuthHeader => {
            return Decision::Reject(Rejection::MissingAuthHeader);
        },
        AuthOutcome::InvalidAuthHeaderEncoding => {
            return Decision::Reject(Rejection::InvalidAuthHeader);
        },
        AuthOutcome::AuthMismatch => {
            return Decision::Reject(Rejection::Unauthorized);
        },
    }
    let url_key_v = url_key_bytes();
    let url = match query_get(params, url_key_v.as_slice()) {
        Option::None => {
            return Decision::Reject(Rejection::MissingUrl);
        },
        Option::Some(u) => u,
    };
    let out_method: Vec<u8> = if method_bytes_ok(method.as_slice()) {
        copy_bytes(method.as_slice())
    } else {
        get_method_bytes()
    };
    let out_body: Option<Vec<u8>> = if body.len() == 0 {
        Option::None
    } else {
        Option::Some(copy_bytes(body.as_slice()))
    };
    let header_key_v = header_key_bytes();
    let out_headers: Option<Vec<HeaderField>> = match query_get(params, header_key_v.as_slice()) {
        Option::Some(_) => Option::Some(convert_headers(headers)),
        Option::None => Option::None,
    };
    Decision::Forward(
        OutboundRequest { method: out_method, url, body: out_body, headers: out_headers },
    )
}

} // verus!
