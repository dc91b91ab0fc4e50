//! The error body that every failed request is answered with.
use vstd::prelude::*;
use crate::status::{spec_is_server_error, is_server_error, BAD_REQUEST};

verus! {

/// A message attached to one input field.
#[derive(Debug, Clone, PartialEq, Eq)]
pub struct FieldError {
    pub field: &'static str,
    pub message: &'static str,
}

/// An API error: the HTTP status, a stable machine-readable code, a
/// human-readable message and, for invalid input, the field at fault.
#[derive(Debug, Clone, PartialEq, Eq)]
pub struct ApiError {
    pub status: u16,
    pub code: &'static str,
    pub message: &'static str,
    pub errors: Option<FieldError>,
}

/// The code and the message that answer a bare status.
pub open spec fn status_text(status: u16) -> (&'static str, &'static str) {
    if status == 400 {
        ("bad_request", "Invalid request")
    } else if status == 401 {
        ("authentication_required", "Authentication required")
    } else if status == 403 {
        ("forbidden", "Request origin or CSRF header rejected")
    } else if status == 404 {
        ("not_found", "Resource not found")
    } else if status == 405 {
        ("method_not_allowed", "Method not allowed")
    } else if status == 413 {
        ("payload_too_large", "Request body too large")
    } else if status == 415 {
        ("unsupported_media_type", "Expected JSON content type")
    } else if status == 422 {
        ("invalid_payload", "Invalid request payload")
    } else if status == 429 {
        ("rate_limited", "Too many requests")
    } else if status == 503 {
        ("service_unavailable", "Service unavailable")
    } else if spec_is_server_error(status) {
        ("internal_error", "Internal server error")
    } else {
        ("request_error", "Request failed")
    }
}

impl ApiError {
    /// The error with this status, code and message, and no field errors.
    pub fn new(status: u16, code: &'static str, message: &'static str) -> (r: ApiError)
        ensures
            r.status == status,
            r.code == code,
            r.message == message,
            r.errors is None,
    {
        ApiError { status, code, message, errors: None }
    }

    /// A 400 `validation_error` that names the invalid `field`.
    pub fn validation(field: &'static str, message: &'static str) -> (r: ApiError)
        ensures
            r.status == BAD_REQUEST,
            r.code == "validation_error",
            r.message == "Invalid input",
            r.errors == Some(FieldError { field, message }),
    {
        ApiError {
            errors: Some(FieldError { field, message }),
            ..ApiError::new(BAD_REQUEST, "validation_error", "Invalid input")
        }
    }

    /// The canonical error for a bare status.
    pub fn from_status(status: u16) -> (r: ApiError)
        ensures
            r.status == status,
            (r.code, r.message) == status_text(status),
            r.errors is None,
    {
        let (code, message): (&'static str, &'static str) = if status == 400 {
            ("bad_request", "Invalid request")
        } else if status == 401 {
            ("authentication_required", "Authentication required")
        } else if status == 403 {
            ("forbidden", "Request origin or CSRF header rejected")
        } else if status == 404 {
            ("not_found", "Resource not found")
        } else if status == 405 {
            ("method_not_allowed", "Method not allowed")
        } else if status == 413 {
            ("payload_too_large", "Request body too large")
        } else if status == 415 {
            ("unsupported_media_type", "Expected JSON content type")
        } else if status == 422 {
            ("invalid_payload", "Invalid request payload")
        } else if status == 429 {
            ("rate_limited", "Too many requests")
        } else if status == 503 {
            ("service_unavailable", "Service unavailable")
        } else if is_server_error(status) {
            ("internal_error", "Internal server error")
        } else {
            ("request_error", "Request failed")
        };
        ApiError::new(status, code, message)
    }
}

} // verus!
