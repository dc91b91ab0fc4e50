//! The service's liveness answers.
use vstd::prelude::*;
use crate::status::{OK, SERVICE_UNAVAILABLE};

verus! {

/// The answer at the root path.
pub fn index() -> (r: &'static str)
    ensures
        r == "Rust API is running",
{
    "Rust API is running"
}

/// The health check answers 200 when the database answered a ping, else 503.
pub fn health(database_reachable: bool) -> (r: u16)
    ensures
        r == if database_reachable { OK } else { SERVICE_UNAVAILABLE },
{
    if database_reachable {
        OK
    } else {
        SERVICE_UNAVAILABLE
    }
}

} // verus!
