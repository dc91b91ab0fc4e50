//! Cross-site request forgery protection for state-changing requests.
use vstd::prelude::*;
use vstd::utf8::encode_utf8;
use crate::auth::error::AuthError;
use crate::config::Config;
use crate::text::bytes_eq;

verus! {

/// The method of a request.
#[derive(Debug, Clone, PartialEq, Eq)]
pub enum RequestMethod {
    Get,
    Head,
    Options,
    Trace,
    Connect,
    Post,
    Put,
    Patch,
    Delete,
    /// Any other method name.
    Extension,
}

/// The methods that HTTP defines as safe: they request no change.
pub open spec fn method_is_safe(method: RequestMethod) -> bool {
    match method {
        RequestMethod::Get | RequestMethod::Head | RequestMethod::Options | RequestMethod::Trace => true,
        _ => false,
    }
}

impl RequestMethod {
    pub fn is_safe(&self) -> (r: bool)
        ensures
            r == method_is_safe(*self),
    {
        match self {
            RequestMethod::Get | RequestMethod::Head | RequestMethod::Options | RequestMethod::Trace => true,
            _ => false,
        }
    }
}

/// The value that the `X-CSRF-Protection` header must hold: the single byte `1`.
pub open spec fn csrf_token() -> Seq<u8> {
    seq![0x31u8]
}

/// A request passes when its method is safe, or when it carries
/// `X-CSRF-Protection: 1` and either no `Origin` header or exactly the
/// configured origin.
pub open spec fn request_permitted(
    method: RequestMethod,
    csrf_header: Option<Seq<u8>>,
    origin_header: Option<Seq<u8>>,
    allowed_origin: Seq<char>,
) -> bool {
    ||| method_is_safe(method)
    ||| {
        &&& csrf_header == Some(csrf_token())
        &&& match origin_header {
            Some(origin) => origin == encode_utf8(allowed_origin),
            None => true,
        }
    }
}

pub open spec fn opt_bytes(b: Option<&[u8]>) -> Option<Seq<u8>> {
    match b {
        Some(s) => Some(s@),
        None => None,
    }
}

/// Decides whether a request may reach the routes: the values are those of
/// the first `X-CSRF-Protection` and `Origin` headers, if present. A refused
/// request is answered `Forbidden`.
pub fn protect_requests(
    config: &Config,
    method: RequestMethod,
    csrf_header: Option<&[u8]>,
    origin_header: Option<&[u8]>,
) -> (r: Result<(), AuthError>)
    ensures
        r is Ok <==> request_permitted(
            method,
            opt_bytes(csrf_header),
            opt_bytes(origin_header),
            config.spec_allowed_origin(),
        ),
        r matches Err(e) ==> e == AuthError::Forbidden,
{
    if method.is_safe() {
        return Ok(());
    }
    let token_ok = match csrf_header {
        Some(value) => value.len() == 1 && value[0] == 0x31u8,
        None => false,
    };
    let origin_ok = match origin_header {
        Some(origin) => bytes_eq(origin, config.allowed_origin().as_bytes()),
        None => true,
    };
    if token_ok && origin_ok {
        proof {
            if let Some(value) = csrf_header {
                assert(value@ =~= csrf_token());
            }
        }
        Ok(())
    } else {
        proof {
            if let Some(value) = csrf_header {
                if value@ == csrf_token() {
                    assert(value@.len() == 1 && value@[0] == 0x31u8);
                }
            }
        }
        Err(AuthError::Forbidden)
    }
}

} // verus!
