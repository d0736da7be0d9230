//! Request-time configuration: bind target and optional authentication
//! policy. Immutable once loaded; the core logic reads only the policy.

use vstd::prelude::*;

verus! {

/// Authentication policy: when the shared secret is present, every
/// forwarded request must carry it in the authentication header.
#[derive(Clone)]
pub struct AuthConfig {
    pub header_auth: Option<Vec<u8>>,
}

/// Process configuration. The bind fields only steer the hosting server;
/// the forwarding core reads `auth` alone.
#[derive(Clone)]
pub struct Config {
    pub bind_address: String,
    pub bind_port: u16,
    pub log_level: String,
    pub auth: Option<AuthConfig>,
}

/// The configured shared secret, if any: absent when no policy is set or
/// the policy itself carries no secret. In either case no authentication
/// is enforced.
pub open spec fn config_secret(c: Config) -> Option<Seq<u8>> {
    match c.auth {
        Option::None => Option::None,
        Option::Some(a) => match a.header_auth {
            Option::None => Option::None,
            Option::Some(s) => Option::Some(s@),
        },
    }
}

impl Default for AuthConfig {
    /// No secret: authentication is not enforced.
    fn default() -> (c: AuthConfig)
        ensures
            c.header_auth is None,
    {
        AuthConfig { header_auth: Option::None }
    }
}

impl Default for Config {
    /// The fallback used when no configuration could be loaded.
    fn default() -> (c: Config)
        ensures
            c.bind_address@ == "127.0.0.1"@,
            c.bind_port == 8080,
            c.log_level@ == "info"@,
            c.auth is None,
    {
        Config {
            bind_address: "127.0.0.1".to_owned(),
            bind_port: 8080,
            log_level: "info".to_owned(),
            auth: Option::None,
        }
    }
}

} // verus!
