//! The fixed policies of the HTTP layer: cross-origin access, the session
//! cookie, request size and the rate of authentication attempts.
use vstd::prelude::*;
use crate::auth::protection::RequestMethod;
use crate::config::Config;

verus! {

/// The `SameSite` attribute of a cookie.
#[derive(Debug, Clone, PartialEq, Eq)]
pub enum SameSite {
    Strict,
    Lax,
    NoneAllowed,
}

/// How the session cookie is issued.
#[derive(Debug, Clone, PartialEq, Eq)]
pub struct SessionCookiePolicy {
    pub name: &'static str,
    pub path: &'static str,
    pub http_only: bool,
    pub secure: bool,
    pub same_site: SameSite,
    /// A session ends after this many seconds without a request.
    pub inactivity_timeout_secs: i64,
}

/// The lifetime of a session from login, in seconds: one day.
pub const LOGIN_SESSION_SECS: i64 = 86400;

/// The largest request body the authentication routes read, in bytes.
pub const MAX_BODY_BYTES: usize = 16 * 1024;

/// Registration and login attempts per client address: one more is allowed
/// every `RATE_LIMIT_PERIOD_SECS` seconds, up to a burst of `RATE_LIMIT_BURST`.
pub const RATE_LIMIT_PERIOD_SECS: u64 = 10;

pub const RATE_LIMIT_BURST: u32 = 5;

/// The session cookie is `session_id` on `/`, HTTP-only, `SameSite=Lax`,
/// `Secure` as configured, and lapses after a day of inactivity.
pub fn session_cookie_policy(config: &Config) -> (r: SessionCookiePolicy)
    ensures
        r.name == "session_id",
        r.path == "/",
        r.http_only,
        r.secure == config.spec_cookie_secure(),
        r.same_site == SameSite::Lax,
        r.inactivity_timeout_secs == 86400,
{
    SessionCookiePolicy {
        name: "session_id",
        path: "/",
        http_only: true,
        secure: config.cookie_secure(),
        same_site: SameSite::Lax,
        inactivity_timeout_secs: 86400,
    }
}

/// Which cross-origin requests browsers may send with credentials.
#[derive(Debug, Clone, PartialEq, Eq)]
pub struct CorsPolicy {
    pub allowed_origin: String,
    pub allow_credentials: bool,
    pub allowed_methods: Vec<RequestMethod>,
    pub allowed_headers: Vec<&'static str>,
}

/// Only the configured origin, with credentials, for the CRUD methods and
/// the two request headers that the API reads.
pub fn cors_policy(config: &Config) -> (r: CorsPolicy)
    ensures
        r.allowed_origin@ == config.spec_allowed_origin(),
        r.allow_credentials,
        r.allowed_methods@ == seq![
            RequestMethod::Get,
            RequestMethod::Post,
            RequestMethod::Patch,
            RequestMethod::Put,
            RequestMethod::Delete,
        ],
        r.allowed_headers@ == seq!["content-type", "x-csrf-protection"],
{
    let allowed_methods = vec![
        RequestMethod::Get,
        RequestMethod::Post,
        RequestMethod::Patch,
        RequestMethod::Put,
        RequestMethod::Delete,
    ];
    let allowed_headers = vec!["content-type", "x-csrf-protection"];
    CorsPolicy {
        allowed_origin: String::from_str(config.allowed_origin()),
        allow_credentials: true,
        allowed_methods,
        allowed_headers,
    }
}

} // verus!
