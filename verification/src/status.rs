//! HTTP status codes as numbers, and their classes.
use vstd::prelude::*;

verus! {

pub const OK: u16 = 200;
pub const CREATED: u16 = 201;
pub const NO_CONTENT: u16 = 204;
pub const BAD_REQUEST: u16 = 400;
pub const UNAUTHORIZED: u16 = 401;
pub const FORBIDDEN: u16 = 403;
pub const NOT_FOUND: u16 = 404;
pub const METHOD_NOT_ALLOWED: u16 = 405;
pub const CONFLICT: u16 = 409;
pub const PAYLOAD_TOO_LARGE: u16 = 413;
pub const UNSUPPORTED_MEDIA_TYPE: u16 = 415;
pub const UNPROCESSABLE_ENTITY: u16 = 422;
pub const TOO_MANY_REQUESTS: u16 = 429;
pub const INTERNAL_SERVER_ERROR: u16 = 500;
pub const SERVICE_UNAVAILABLE: u16 = 503;

/// A status in the 4xx class.
pub open spec fn spec_is_client_error(status: u16) -> bool {
    400 <= status < 500
}

/// A status in the 5xx class.
pub open spec fn spec_is_server_error(status: u16) -> bool {
    500 <= status < 600
}

/// Whether `status` is a client error (400 to 499).
pub fn is_client_error(status: u16) -> (r: bool)
    ensures
        r == spec_is_client_error(status),
{
    400 <= status && status < 500
}

/// Whether `status` is a server error (500 to 599).
pub fn is_server_error(status: u16) -> (r: bool)
    ensures
        r == spec_is_server_error(status),
{
    500 <= status && status < 600
}

} // verus!
