//! Answers to JSON request bodies that cannot be read.
use vstd::prelude::*;
use crate::error::{ApiError, status_text};

verus! {

/// Why a JSON body was refused.
#[derive(Debug, Clone, PartialEq, Eq)]
pub enum JsonRejectionKind {
    /// The body is not well-formed JSON.
    Syntax,
    /// The body is JSON of the wrong shape.
    Data,
    /// Anything else: wrong content type, unreadable or oversized body.
    Other,
}

/// The error for a refused JSON body; `status` is the one the refusal carries.
pub fn json_rejection_error(kind: JsonRejectionKind, status: u16) -> (r: ApiError)
    ensures
        r.status == status,
        r.errors is None,
        (r.code, r.message) == match kind {
            JsonRejectionKind::Syntax => ("invalid_json", "Invalid JSON syntax"),
            JsonRejectionKind::Data => ("invalid_payload", "Invalid request payload"),
            JsonRejectionKind::Other => status_text(status),
        },
{
    match kind {
        JsonRejectionKind::Syntax => ApiError::new(status, "invalid_json", "Invalid JSON syntax"),
        JsonRejectionKind::Data => ApiError::new(status, "invalid_payload", "Invalid request payload"),
        JsonRejectionKind::Other => ApiError::from_status(status),
    }
}

} // verus!
