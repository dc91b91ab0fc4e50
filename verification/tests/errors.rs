use rust_backend_boilerplate::auth::error::AuthError;
use rust_backend_boilerplate::error::{ApiError, FieldError};
use rust_backend_boilerplate::extractors::{json_rejection_error, JsonRejectionKind};

fn code_and_message(status: u16) -> (&'static str, &'static str) {
    let error = ApiError::from_status(status);
    assert_eq!(error.status, status);
    assert!(error.errors.is_none());
    (error.code, error.message)
}

#[test]
fn validation_names_the_field() {
    let error = ApiError::validation("email", "Invalid email address");
    assert_eq!(error.status, 400);
    assert_eq!(error.code, "validation_error");
    assert_eq!(error.message, "Invalid input");
    assert_eq!(
        error.errors,
        Some(FieldError { field: "email", message: "Invalid email address" })
    );
}

#[test]
fn statuses_have_stable_codes() {
    assert_eq!(code_and_message(400), ("bad_request", "Invalid request"));
    assert_eq!(code_and_message(401), ("authentication_required", "Authentication required"));
    assert_eq!(code_and_message(403), ("forbidden", "Request origin or CSRF header rejected"));
    assert_eq!(code_and_message(404), ("not_found", "Resource not found"));
    assert_eq!(code_and_message(405), ("method_not_allowed", "Method not allowed"));
    assert_eq!(code_and_message(413), ("payload_too_large", "Request body too large"));
    assert_eq!(code_and_message(415), ("unsupported_media_type", "Expected JSON content type"));
    assert_eq!(code_and_message(422), ("invalid_payload", "Invalid request payload"));
    assert_eq!(code_and_message(429), ("rate_limited", "Too many requests"));
    assert_eq!(code_and_message(503), ("service_unavailable", "Service unavailable"));
    assert_eq!(code_and_message(500), ("internal_error", "Internal server error"));
    assert_eq!(code_and_message(502), ("internal_error", "Internal server error"));
    assert_eq!(code_and_message(599), ("internal_error", "Internal server error"));
    assert_eq!(code_and_message(418), ("request_error", "Request failed"));
    assert_eq!(code_and_message(600), ("request_error", "Request failed"));
}

#[test]
fn other_errors_omit_field_errors() {
    let error = ApiError::from_status(500);
    assert_eq!(error.code, "internal_error");
    assert_eq!(error.message, "Internal server error");
    assert!(error.errors.is_none());
}

#[test]
fn database_failure_does_not_expose_internal_details() {
    let error = ApiError::from(AuthError::Database("private SQL and credentials".to_owned()));
    assert_eq!(error.status, 500);
    assert_eq!(error.code, "internal_error");
    assert_eq!(error.message, "Internal server error");
    assert!(error.errors.is_none());
    let task = ApiError::from(AuthError::Task("private task failure".to_owned()));
    assert_eq!((task.status, task.code, task.message), (500, "internal_error", "Internal server error"));
}

#[test]
fn authentication_errors_have_distinct_codes() {
    let taken = ApiError::from(AuthError::EmailTaken);
    assert_eq!((taken.status, taken.code), (409, "email_taken"));
    assert_eq!(taken.message, "Email already registered");
    let wrong = ApiError::from(AuthError::InvalidCredentials);
    assert_eq!((wrong.status, wrong.code), (401, "invalid_credentials"));
    assert_eq!(wrong.message, "Invalid email or password");
    let missing = ApiError::from(AuthError::Unauthorized);
    assert_eq!((missing.status, missing.code), (401, "authentication_required"));
    let forbidden = ApiError::from(AuthError::Forbidden);
    assert_eq!((forbidden.status, forbidden.code), (403, "forbidden"));
    let internal = ApiError::from(AuthError::Internal);
    assert_eq!((internal.status, internal.code), (500, "internal_error"));
    let invalid = ApiError::from(AuthError::InvalidInput {
        field: "password",
        message: "Password must contain at least 15 characters",
    });
    assert_eq!((invalid.status, invalid.code), (400, "validation_error"));
    assert_eq!(
        invalid.errors,
        Some(FieldError {
            field: "password",
            message: "Password must contain at least 15 characters"
        })
    );
}

#[test]
fn json_failures_preserve_http_statuses() {
    let syntax = json_rejection_error(JsonRejectionKind::Syntax, 400);
    assert_eq!((syntax.status, syntax.code, syntax.message), (400, "invalid_json", "Invalid JSON syntax"));
    let data = json_rejection_error(JsonRejectionKind::Data, 422);
    assert_eq!((data.status, data.code, data.message), (422, "invalid_payload", "Invalid request payload"));
    let large = json_rejection_error(JsonRejectionKind::Other, 413);
    assert_eq!((large.status, large.code), (413, "payload_too_large"));
    let media = json_rejection_error(JsonRejectionKind::Other, 415);
    assert_eq!((media.status, media.code), (415, "unsupported_media_type"));
}
