//! Verified core of a configurable HTTP forwarding proxy.
//!
//! The library decides, for each inbound request, whether it is authorized,
//! which outbound request to issue (method, target URL, body, forwarded
//! headers), and how to relay the upstream response back to the caller.
//! All decisions are made over plain byte values; the HTTP transport itself
//! (listening, sending, awaiting) lives outside the library.

pub mod auth;
pub mod bytes;
pub mod config;
pub mod echo;
pub mod headers;
pub mod laws;
pub mod proxy;
pub mod query;
pub mod relay;
pub mod transport;
