//! Deployment settings: the browser origin that may send credentialed
//! requests, and whether the session cookie is marked `Secure`.
use vstd::prelude::*;
use vstd::utf8::encode_utf8;
use crate::text::{str_eq, contains_char, ends_with_char};

verus! {

/// The components of a URI that the origin rule reads.
#[derive(Debug, Clone, PartialEq, Eq)]
pub struct UriParts {
    pub scheme: Option<String>,
    pub authority: Option<String>,
    pub path: String,
    pub query: Option<String>,
}

/// A URI's scheme, authority, path and query, as character sequences.
pub type UriView = (Option<Seq<char>>, Option<Seq<char>>, Seq<char>, Option<Seq<char>>);

pub open spec fn opt_chars(s: Option<String>) -> Option<Seq<char>> {
    match s {
        Some(t) => Some(t@),
        None => None,
    }
}

impl UriParts {
    pub open spec fn view(&self) -> UriView {
        (opt_chars(self.scheme), opt_chars(self.authority), self.path@, opt_chars(self.query))
    }
}

/// What parsing `text` as an `http::Uri` yields: on success the URI's
/// `scheme_str()`, `authority()`, `path()` and `query()`, on failure the
/// text of the `InvalidUri` error.
pub uninterp spec fn parsed_uri(text: Seq<char>) -> Result<UriView, Seq<char>>;

/// Parses `text` with `http::Uri`'s `FromStr` and reads back the components
/// that the origin rule needs, or the error's message. Beyond naming the
/// result, it claims one fact of the parser's source: every byte up to a `#`
/// of an accepted text passes its URI character tables, none of which admits
/// a control byte, a space or 127, so an accepted text without `#` is a
/// valid header value. Which texts parse is not stated.
#[verifier::external_body]
fn parse_uri(text: &str) -> (r: Result<UriParts, String>)
    ensures
        r is Ok <==> parsed_uri(text@) is Ok,
        r matches Ok(p) ==> (parsed_uri(text@) matches Ok(v) && v == p.view()),
        r is Ok ==> (!text@.contains('#') ==> is_header_value(text@)),
        r matches Err(m) ==> (parsed_uri(text@) matches Err(e) && e == m@),
{
    match text.parse::<axum::http::Uri>() {
        Ok(uri) => Ok(UriParts {
            scheme: uri.scheme_str().map(String::from),
            authority: uri.authority().map(axum::http::uri::Authority::as_str).map(String::from),
            path: String::from(uri.path()),
            query: uri.query().map(String::from),
        }),
        Err(error) => Err(error.to_string()),
    }
}

/// A byte that a header value may hold: tab, or any byte from 32 up other than 127.
pub open spec fn header_value_byte(b: u8) -> bool {
    (b >= 32 && b != 127) || b == 9
}

/// Whether the UTF-8 encoding of `text` is a valid header value.
pub open spec fn is_header_value(text: Seq<char>) -> bool {
    forall|i: int| 0 <= i < encode_utf8(text).len() ==> header_value_byte(#[trigger] encode_utf8(text)[i])
}

/// Whether `text` can stand in a header: the rule of
/// `http::HeaderValue::from_str`, which accepts a text exactly when every
/// byte of it is a tab or at least 32 and not 127.
fn header_value_parses(text: &str) -> (r: bool)
    ensures
        r == is_header_value(text@),
{
    let bytes = text.as_bytes();
    let mut i: usize = 0;
    while i < bytes.len()
        invariant
            i <= bytes@.len(),
            bytes@ == encode_utf8(text@),
            forall|k: int| 0 <= k < i ==> header_value_byte(#[trigger] bytes@[k]),
        decreases bytes.len() - i,
    {
        let b = bytes[i];
        if !((b >= 32 && b != 127) || b == 9) {
            return false;
        }
        i = i + 1;
    }
    true
}

/// An origin is a scheme `http` or `https`, an authority without user
/// information, the root path, no query, and no trailing slash in the text.
pub open spec fn is_exact_origin(origin: Seq<char>, uri: UriView) -> bool {
    &&& (uri.0 == Some("http"@) || uri.0 == Some("https"@))
    &&& uri.1 matches Some(authority) && !authority.contains('@')
    &&& uri.2 == "/"@
    &&& uri.3 is None
    &&& !(origin.len() > 0 && origin.last() == '/')
}

/// Whether `origin`, already parsed into `uri`, names an origin exactly.
pub fn origin_is_exact(origin: &str, uri: &UriParts) -> (r: bool)
    ensures
        r == is_exact_origin(origin@, uri.view()),
{
    let scheme_ok = match &uri.scheme {
        Some(scheme) => str_eq(scheme.as_str(), "http") || str_eq(scheme.as_str(), "https"),
        None => false,
    };
    let authority_ok = match &uri.authority {
        Some(authority) => !contains_char(authority.as_str(), '@'),
        None => false,
    };
    scheme_ok && authority_ok && str_eq(uri.path.as_str(), "/") && uri.query.is_none()
        && !ends_with_char(origin, '/')
}

/// Why a setting was refused.
#[derive(Debug, Clone, PartialEq, Eq)]
pub enum ConfigError {
    /// The frontend origin does not parse as a URI; the parser's message.
    InvalidUri(String),
    /// The frontend origin is a URI but not an exact HTTP(S) origin.
    NotAnOrigin,
    /// The frontend origin cannot stand in a header.
    InvalidHeaderValue,
    /// The cookie flag is neither `true` nor `false`.
    InvalidCookieSecure,
}

/// The message of each configuration error.
pub open spec fn config_error_message(error: ConfigError) -> Seq<char> {
    match error {
        ConfigError::InvalidUri(message) => message@,
        ConfigError::NotAnOrigin => "FRONTEND_ORIGIN must be an HTTP(S) origin without a path or trailing slash"@,
        ConfigError::InvalidHeaderValue => "failed to parse header value"@,
        ConfigError::InvalidCookieSecure => "provided string was not `true` or `false`"@,
    }
}

impl ConfigError {
    /// A description of the error for the operator.
    pub fn message(&self) -> (r: &str)
        ensures
            r@ == config_error_message(*self),
    {
        match self {
            ConfigError::InvalidUri(message) => message.as_str(),
            ConfigError::NotAnOrigin => "FRONTEND_ORIGIN must be an HTTP(S) origin without a path or trailing slash",
            ConfigError::InvalidHeaderValue => "failed to parse header value",
            ConfigError::InvalidCookieSecure => "provided string was not `true` or `false`",
        }
    }
}

/// Whether a frontend origin is accepted: it parses as a URI that is an
/// exact origin, and it can stand in a header.
pub open spec fn origin_accepted(origin: Seq<char>) -> bool {
    &&& parsed_uri(origin) matches Ok(uri)
    &&& is_exact_origin(origin, uri)
    &&& is_header_value(origin)
}

/// `error` is the one that refuses `origin`: the parser's message where it
/// does not parse, else `NotAnOrigin` where it is not an exact origin, else
/// `InvalidHeaderValue`.
pub open spec fn origin_refused_with(origin: Seq<char>, error: ConfigError) -> bool {
    match parsed_uri(origin) {
        Err(message) => error matches ConfigError::InvalidUri(m) && m@ == message,
        Ok(uri) => if !is_exact_origin(origin, uri) {
            error == ConfigError::NotAnOrigin
        } else {
            error == ConfigError::InvalidHeaderValue
        },
    }
}

/// What `str::parse::<bool>` accepts: exactly `true` and `false`.
pub open spec fn parsed_bool(text: Seq<char>) -> Option<bool> {
    if text == "true"@ {
        Some(true)
    } else if text == "false"@ {
        Some(false)
    } else {
        None
    }
}

/// The origin used where none is configured.
pub open spec fn default_origin() -> Seq<char> {
    "http://localhost:3000"@
}

/// The settings of the service.
#[derive(Debug, Clone, PartialEq, Eq)]
pub struct Config {
    allowed_origin: String,
    cookie_secure: bool,
}

impl Config {
    /// The only origin whose credentialed browser requests are accepted.
    pub closed spec fn spec_allowed_origin(&self) -> Seq<char> {
        self.allowed_origin@
    }

    /// Whether the session cookie carries the `Secure` attribute.
    pub closed spec fn spec_cookie_secure(&self) -> bool {
        self.cookie_secure
    }

    /// Every configuration names an accepted origin.
    pub closed spec fn wf(&self) -> bool {
        origin_accepted(self.allowed_origin@)
    }

    pub fn allowed_origin(&self) -> (r: &str)
        ensures
            r@ == self.spec_allowed_origin(),
    {
        self.allowed_origin.as_str()
    }

    pub fn cookie_secure(&self) -> (r: bool)
        ensures
            r == self.spec_cookie_secure(),
    {
        self.cookie_secure
    }

    /// Accepts `origin` only where it is an exact HTTP(S) origin that can
    /// stand in a header; the configured origin is then that text, unchanged.
    pub fn new(origin: &str, cookie_secure: bool) -> (r: Result<Config, ConfigError>)
        ensures
            r is Ok <==> origin_accepted(origin@),
            r matches Ok(c) ==> c.spec_allowed_origin() == origin@ && c.spec_cookie_secure()
                == cookie_secure && c.wf(),
            r matches Err(e) ==> origin_refused_with(origin@, e),
            !origin@.contains('#') ==> (r is Ok <==> (parsed_uri(origin@) matches Ok(uri)
                && is_exact_origin(origin@, uri))),
    {
        let uri = match parse_uri(origin) {
            Ok(uri) => uri,
            Err(message) => return Err(ConfigError::InvalidUri(message)),
        };
        if !origin_is_exact(origin, &uri) {
            return Err(ConfigError::NotAnOrigin);
        }
        if !header_value_parses(origin) {
            return Err(ConfigError::InvalidHeaderValue);
        }
        Ok(Config { allowed_origin: String::from_str(origin), cookie_secure })
    }

    /// The settings from the values of the environment variables
    /// `FRONTEND_ORIGIN` and `COOKIE_SECURE`, where set: the origin defaults to `http://localhost:3000` and the
    /// cookie flag to `true`. The flag is read first.
    pub fn from_env(frontend_origin: Option<String>, cookie_secure: Option<String>) -> (r:
        Result<Config, ConfigError>)
        ensures
            ({
                let flag = match cookie_secure {
                    Some(t) => t@,
                    None => "true"@,
                };
                let origin = match frontend_origin {
                    Some(o) => o@,
                    None => default_origin(),
                };
                match parsed_bool(flag) {
                    None => r == Err::<Config, ConfigError>(ConfigError::InvalidCookieSecure),
                    Some(secure) => {
                        &&& r is Ok <==> origin_accepted(origin)
                        &&& r matches Ok(c) ==> c.spec_allowed_origin() == origin
                            && c.spec_cookie_secure() == secure && c.wf()
                        &&& r matches Err(e) ==> origin_refused_with(origin, e)
                    },
                }
            }),
    {
        let flag = match cookie_secure {
            Some(t) => t,
            None => String::from_str("true"),
        };
        let secure = if str_eq(flag.as_str(), "true") {
            true
        } else if str_eq(flag.as_str(), "false") {
            false
        } else {
            return Err(ConfigError::InvalidCookieSecure);
        };
        let origin = match frontend_origin {
            Some(o) => o,
            None => String::from_str("http://localhost:3000"),
        };
        Config::new(origin.as_str(), secure)
    }
}

} // verus!
