//! Verified core of an HTTP API with cookie-session authentication: input
//! normalisation, the error vocabulary of the API, origin and CSRF rules,
//! and the decisions that the request handlers and the session store take.
pub mod text;
pub mod status;
pub mod error;
pub mod auth;
pub mod config;
pub mod middleware;
pub mod extractors;
pub mod telemetry;
pub mod health;
pub mod laws;
pub mod policy;
pub mod shutdown;
