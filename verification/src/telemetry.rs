//! What the request log records.
use vstd::prelude::*;
use crate::status::{is_client_error, is_server_error, spec_is_client_error, spec_is_server_error};

verus! {

/// The level of a request's log line.
#[derive(Debug, Clone, PartialEq, Eq)]
pub enum LogLevel {
    Info,
    Warn,
    Error,
}

/// Server errors are logged as errors, client errors as warnings, the rest as information.
pub fn log_level(status: u16) -> (r: LogLevel)
    ensures
        r == if spec_is_server_error(status) {
            LogLevel::Error
        } else if spec_is_client_error(status) {
            LogLevel::Warn
        } else {
            LogLevel::Info
        },
{
    if is_server_error(status) {
        LogLevel::Error
    } else if is_client_error(status) {
        LogLevel::Warn
    } else {
        LogLevel::Info
    }
}

/// The route of a request as logged: its route template, which holds neither
/// query nor path parameter values, or `<unmatched>`.
pub fn route_label(matched_path: Option<&str>) -> (r: String)
    ensures
        r@ == match matched_path {
            Some(p) => p@,
            None => "<unmatched>"@,
        },
{
    match matched_path {
        Some(p) => String::from_str(p),
        None => String::from_str("<unmatched>"),
    }
}

} // verus!
