//! The laws of the pipeline, stated over the same spec functions the
//! executable functions are proved against.

use vstd::prelude::*;
use vstd::utf8::valid_utf8;

use crate::auth::{spec_authorize, AuthOutcome};
use crate::headers::{first_auth_value, header_kept, is_auth_name, kept_pred};
use crate::proxy::{header_key, spec_handle, url_key, DecisionModel, Rejection};
use crate::query::last_value;
use crate::relay::{spec_rejection_status, spec_relay_status};
use crate::transport::valid_status;

verus! {

/// A request without a `url` query parameter is rejected with the
/// client-error status, and nothing is forwarded: the decision is a
/// rejection, and only a forwarding decision ever reaches the outbound
/// transport.
pub proof fn lemma_missing_url_rejected(
    secret: Option<Seq<u8>>,
    method: Seq<u8>,
    headers: Seq<(Seq<u8>, Seq<u8>)>,
    body: Seq<u8>,
    params: Seq<(Seq<u8>, Seq<u8>)>,
)
    requires
        spec_authorize(secret, headers) == AuthOutcome::Allow,
        last_value(params, url_key()) is None,
    ensures
        spec_handle(secret, method, headers, body, params) == DecisionModel::Reject(
            Rejection::MissingUrl,
        ),
        spec_rejection_status(Rejection::MissingUrl) == 400,
{
}

/// The authentication gate, with a secret configured: a request carrying
/// the secret proceeds to forwarding (given a target), any other decodable
/// value is answered with the unauthorized status, and an absent header
/// with the client-error status. A value that is not valid UTF-8 is a
/// client error as well, not a mismatch.
pub proof fn lemma_auth_gate(
    secret: Seq<u8>,
    method: Seq<u8>,
    headers: Seq<(Seq<u8>, Seq<u8>)>,
    body: Seq<u8>,
    params: Seq<(Seq<u8>, Seq<u8>)>,
)
    ensures
        first_auth_value(headers) is None ==> spec_handle(
            Option::Some(secret),
            method,
            headers,
            body,
            params,
        ) == DecisionModel::Reject(Rejection::MissingAuthHeader) && spec_rejection_status(
            Rejection::MissingAuthHeader,
        ) == 400,
        first_auth_value(headers) matches Option::Some(v) ==> ((valid_utf8(v) && v != secret)
            ==> spec_handle(Option::Some(secret), method, headers, body, params)
            == DecisionModel::Reject(Rejection::Unauthorized) && spec_rejection_status(
            Rejection::Unauthorized,
        ) == 401),
        first_auth_value(headers) matches Option::Some(v) ==> (!valid_utf8(v) ==> spec_handle(
            Option::Some(secret),
            method,
            headers,
            body,
            params,
        ) == DecisionModel::Reject(Rejection::InvalidAuthHeader) && spec_rejection_status(
            Rejection::InvalidAuthHeader,
        ) == 400),
        (first_auth_value(headers) == Option::Some(secret) && valid_utf8(secret) && last_value(
            params,
            url_key(),
        ) is Some) ==> spec_handle(Option::Some(secret), method, headers, body, params) is Forward,
{
}

/// The authentication header never stands among the forwarded headers,
/// whatever the policy and whatever the forwarding flag.
pub proof fn lemma_auth_header_never_forwarded(
    secret: Option<Seq<u8>>,
    method: Seq<u8>,
    headers: Seq<(Seq<u8>, Seq<u8>)>,
    body: Seq<u8>,
    params: Seq<(Seq<u8>, Seq<u8>)>,
)
    ensures
        spec_handle(secret, method, headers, body, params) matches DecisionModel::Forward(o) ==> (
        o.headers matches Option::Some(hs) ==> forall|i: int|
            0 <= i < hs.len() ==> !is_auth_name(#[trigger] hs[i].0)),
{
    let d = spec_handle(secret, method, headers, body, params);
    match d {
        DecisionModel::Forward(o) => {
            match o.headers {
                Option::Some(hs) => {
                    assert(hs == headers.filter(kept_pred()));
                    assert forall|i: int| 0 <= i < hs.len() implies !is_auth_name(
                        #[trigger] hs[i].0,
                    ) by {
                        headers.lemma_filter_pred(kept_pred(), i);
                        assert(header_kept(hs[i]));
                    }
                },
                Option::None => {},
            }
        },
        DecisionModel::Reject(_) => {},
    }
}

/// Without the `header` query parameter no inbound header is forwarded:
/// the outbound request carries none at all.
pub proof fn lemma_no_opt_in_no_headers(
    secret: Option<Seq<u8>>,
    method: Seq<u8>,
    headers: Seq<(Seq<u8>, Seq<u8>)>,
    body: Seq<u8>,
    params: Seq<(Seq<u8>, Seq<u8>)>,
)
    ensures
        last_value(params, header_key()) is None ==> (spec_handle(
            secret,
            method,
            headers,
            body,
            params,
        ) matches DecisionModel::Forward(o) ==> o.headers is None),
{
}

/// A request is forwarded exactly when the authentication check allows it
/// and a target URL is given; on every other input the decision is a
/// terminal rejection.
pub proof fn lemma_forward_iff_allowed_and_targeted(
    secret: Option<Seq<u8>>,
    method: Seq<u8>,
    headers: Seq<(Seq<u8>, Seq<u8>)>,
    body: Seq<u8>,
    params: Seq<(Seq<u8>, Seq<u8>)>,
)
    ensures
        spec_handle(secret, method, headers, body, params) is Forward <==> (spec_authorize(
            secret,
            headers,
        ) == AuthOutcome::Allow && last_value(params, url_key()) is Some),
{
}

/// Forwarding is stateless: the decision is a function of the configured
/// secret and the request alone, so the same request decided twice yields
/// the same outbound plan, and each plan stands for an outbound call of
/// its own — nothing is cached or deduplicated between requests.
pub proof fn lemma_repeat_request_same_decision(
    d1: DecisionModel,
    d2: DecisionModel,
    secret: Option<Seq<u8>>,
    method: Seq<u8>,
    headers: Seq<(Seq<u8>, Seq<u8>)>,
    body: Seq<u8>,
    params: Seq<(Seq<u8>, Seq<u8>)>,
)
    requires
        d1 == spec_handle(secret, method, headers, body, params),
        d2 == spec_handle(secret, method, headers, body, params),
    ensures
        d1 == d2,
{
}

/// An upstream status outside the representable range degrades to the
/// server-error fallback instead of failing the relay.
pub proof fn lemma_bad_status_degrades(s: u16)
    ensures
        !valid_status(s) ==> spec_relay_status(s) == 500,
        valid_status(s) ==> spec_relay_status(s) == s,
{
}

} // verus!
