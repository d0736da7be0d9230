//! The response relay and the proxy's own replies.

use forward_proxy::config::Config;
use forward_proxy::headers::HeaderField;
use forward_proxy::proxy::Rejection;
use forward_proxy::relay::{hello_reply, rejection_message, rejection_status, relay_response};

fn hf(name: &[u8], value: &[u8]) -> HeaderField {
    HeaderField { name: name.to_vec(), value: value.to_vec() }
}

#[test]
fn successful_response_round_trips() {
    let headers = vec![hf(b"X-Test", b"abc")];
    let r = relay_response(200, &headers, b"hello".to_vec());
    assert_eq!(r.status, 200);
    assert_eq!(r.headers.len(), 1);
    assert_eq!(r.headers[0].name, b"X-Test".to_vec());
    assert_eq!(r.headers[0].value, b"abc".to_vec());
    assert_eq!(r.body, b"hello".to_vec());
}

#[test]
fn status_below_the_valid_range_degrades_to_500() {
    let r = relay_response(99, &vec![], vec![]);
    assert_eq!(r.status, 500);
}

#[test]
fn status_above_the_valid_range_degrades_to_500() {
    let r = relay_response(1000, &vec![], vec![]);
    assert_eq!(r.status, 500);
}

#[test]
fn extreme_valid_statuses_are_kept() {
    assert_eq!(relay_response(100, &vec![], vec![]).status, 100);
    assert_eq!(relay_response(999, &vec![], vec![]).status, 999);
}

#[test]
fn unrepresentable_header_values_are_omitted() {
    let headers = vec![hf(b"x-opaque", &[0x80u8, 0x81]), hf(b"x-plain", b"ok")];
    let r = relay_response(200, &headers, vec![]);
    assert_eq!(r.headers.len(), 1);
    assert_eq!(r.headers[0].name, b"x-plain".to_vec());
}

#[test]
fn body_is_copied_byte_for_byte() {
    let body = vec![0u8, 1, 2, 255, 254, 10, 13];
    let r = relay_response(204, &vec![], body.clone());
    assert_eq!(r.body, body);
}

#[test]
fn upstream_failures_are_generic_server_errors() {
    assert_eq!(rejection_status(Rejection::UpstreamUnreachable), 500);
    assert_eq!(rejection_message(Rejection::UpstreamUnreachable), "Failed to send request");
    assert_eq!(rejection_status(Rejection::UpstreamBodyReadFailure), 500);
    assert_eq!(rejection_message(Rejection::UpstreamBodyReadFailure), "Failed to read response");
}

#[test]
fn hello_reply_is_the_greeting() {
    let (status, body) = hello_reply();
    assert_eq!(status, 200);
    assert_eq!(body, "Hello, world!");
}

#[test]
fn default_config_has_documented_values() {
    let c = Config::default();
    assert_eq!(c.bind_address, "127.0.0.1");
    assert_eq!(c.bind_port, 8080);
    assert_eq!(c.log_level, "info");
    assert!(c.auth.is_none());
}
