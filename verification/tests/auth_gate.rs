//! The authentication gate: matching, mismatching, missing and
//! undecodable credentials.

use forward_proxy::auth::{authorize, AuthOutcome};
use forward_proxy::config::{AuthConfig, Config};
use forward_proxy::headers::HeaderField;
use forward_proxy::proxy::{handle_proxy, Decision, Rejection};
use forward_proxy::query::QueryParam;
use forward_proxy::relay::{rejection_message, rejection_status};

fn hf(name: &[u8], value: &[u8]) -> HeaderField {
    HeaderField { name: name.to_vec(), value: value.to_vec() }
}

fn qp(key: &[u8], value: &[u8]) -> QueryParam {
    QueryParam { key: key.to_vec(), value: value.to_vec() }
}

fn secret_config(secret: &[u8]) -> Config {
    Config {
        auth: Some(AuthConfig { header_auth: Some(secret.to_vec()) }),
        ..Config::default()
    }
}

fn reject_of(d: Decision) -> Rejection {
    match d {
        Decision::Reject(k) => k,
        Decision::Forward(_) => panic!("expected a rejection, got a forward"),
    }
}

#[test]
fn no_policy_allows_everything() {
    let config = Config::default();
    assert_eq!(authorize(&config, &vec![]), AuthOutcome::Allow);
}

#[test]
fn policy_without_secret_allows_everything() {
    let config = Config { auth: Some(AuthConfig { header_auth: None }), ..Config::default() };
    assert_eq!(authorize(&config, &vec![]), AuthOutcome::Allow);
}

#[test]
fn matching_secret_proceeds_to_forwarding() {
    let config = secret_config(b"s3cret");
    let headers = vec![hf(b"header_auth", b"s3cret")];
    let params = vec![qp(b"url", b"http://upstream.test")];
    let d = handle_proxy(&config, &b"GET".to_vec(), &headers, &vec![], &params);
    assert!(matches!(d, Decision::Forward(_)));
}

#[test]
fn auth_header_name_is_matched_case_insensitively() {
    let config = secret_config(b"s3cret");
    let headers = vec![hf(b"Header_Auth", b"s3cret")];
    assert_eq!(authorize(&config, &headers), AuthOutcome::Allow);
}

#[test]
fn mismatching_secret_is_unauthorized() {
    let config = secret_config(b"s3cret");
    let headers = vec![hf(b"header_auth", b"wrong")];
    let params = vec![qp(b"url", b"http://upstream.test")];
    let k = reject_of(handle_proxy(&config, &b"GET".to_vec(), &headers, &vec![], &params));
    assert_eq!(k, Rejection::Unauthorized);
    assert_eq!(rejection_status(k), 401);
    assert_eq!(rejection_message(k), "Unauthorized");
}

#[test]
fn missing_auth_header_is_a_client_error() {
    let config = secret_config(b"s3cret");
    let params = vec![qp(b"url", b"http://upstream.test")];
    let k = reject_of(handle_proxy(&config, &b"GET".to_vec(), &vec![], &vec![], &params));
    assert_eq!(k, Rejection::MissingAuthHeader);
    assert_eq!(rejection_status(k), 400);
    assert_eq!(rejection_message(k), "Missing header_auth in request headers");
}

#[test]
fn undecodable_auth_header_is_a_client_error() {
    let config = secret_config(b"s3cret");
    let headers = vec![hf(b"header_auth", &[0xffu8, 0xfe, 0x80])];
    let params = vec![qp(b"url", b"http://upstream.test")];
    let k = reject_of(handle_proxy(&config, &b"GET".to_vec(), &headers, &vec![], &params));
    assert_eq!(k, Rejection::InvalidAuthHeader);
    assert_eq!(rejection_status(k), 400);
    assert_eq!(rejection_message(k), "Invalid header_auth value");
}

#[test]
fn first_auth_header_occurrence_decides() {
    let config = secret_config(b"s3cret");
    let headers = vec![hf(b"header_auth", b"wrong"), hf(b"header_auth", b"s3cret")];
    assert_eq!(authorize(&config, &headers), AuthOutcome::AuthMismatch);
}

#[test]
fn auth_is_checked_before_the_url_parameter() {
    let config = secret_config(b"s3cret");
    let k = reject_of(handle_proxy(&config, &b"GET".to_vec(), &vec![], &vec![], &vec![]));
    assert_eq!(k, Rejection::MissingAuthHeader);
}
