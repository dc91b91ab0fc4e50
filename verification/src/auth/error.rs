//! Failures of the authentication routes and how each is answered.
use vstd::prelude::*;
use crate::error::{ApiError, FieldError};

verus! {

/// Why an authentication operation failed.
#[derive(Debug, Clone, PartialEq, Eq)]
pub enum AuthError {
    /// Input that fails validation, with the field at fault.
    InvalidInput { field: &'static str, message: &'static str },
    EmailTaken,
    InvalidCredentials,
    Unauthorized,
    Forbidden,
    Internal,
    /// A database failure; the text describes it for the server's own records.
    Database(String),
    /// A background task that did not complete; the text describes it.
    Task(String),
}

/// The answer to each authentication failure. Database and task failures,
/// whatever their details, are answered as a bare internal error.
pub open spec fn api_error_for(error: AuthError) -> ApiError {
    match error {
        AuthError::InvalidInput { field, message } => ApiError {
            status: 400,
            code: "validation_error",
            message: "Invalid input",
            errors: Some(FieldError { field, message }),
        },
        AuthError::EmailTaken => ApiError {
            status: 409,
            code: "email_taken",
            message: "Email already registered",
            errors: None,
        },
        AuthError::InvalidCredentials => ApiError {
            status: 401,
            code: "invalid_credentials",
            message: "Invalid email or password",
            errors: None,
        },
        AuthError::Unauthorized => ApiError {
            status: 401,
            code: "authentication_required",
            message: "Authentication required",
            errors: None,
        },
        AuthError::Forbidden => ApiError {
            status: 403,
            code: "forbidden",
            message: "Request origin or CSRF header rejected",
            errors: None,
        },
        _ => ApiError {
            status: 500,
            code: "internal_error",
            message: "Internal server error",
            errors: None,
        },
    }
}

impl vstd::std_specs::convert::FromSpecImpl<AuthError> for ApiError {
    open spec fn obeys_from_spec() -> bool {
        true
    }

    open spec fn from_spec(v: AuthError) -> ApiError {
        api_error_for(v)
    }
}

impl From<AuthError> for ApiError {
    fn from(error: AuthError) -> (r: ApiError) {
        match error {
            AuthError::InvalidInput { field, message } => ApiError::validation(field, message),
            AuthError::EmailTaken => ApiError::new(409, "email_taken", "Email already registered"),
            AuthError::InvalidCredentials => ApiError::new(
                401,
                "invalid_credentials",
                "Invalid email or password",
            ),
            AuthError::Unauthorized => ApiError::from_status(401),
            AuthError::Forbidden => ApiError::from_status(403),
            _ => ApiError::from_status(500),
        }
    }
}

} // verus!
