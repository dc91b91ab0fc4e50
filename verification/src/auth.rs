//! Registration, login and session-protected access.
pub mod error;
pub mod dto;
pub mod service;
pub mod protection;
pub mod session;
