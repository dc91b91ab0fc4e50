//! Decisions of the session store, which keeps sessions in the database.
use vstd::prelude::*;

verus! {

/// Why the session store failed.
#[derive(Debug, Clone, PartialEq, Eq)]
pub enum StoreError {
    /// The database failed, or refused the operation; the text is safe to show.
    Backend(&'static str),
    /// Session data could not be encoded; the text describes it.
    Encode(String),
    /// A stored session could not be decoded; the text describes it.
    Decode(String),
}

/// The error for any database failure; it does not repeat the database's own message.
pub fn backend_error() -> (r: StoreError)
    ensures
        r == StoreError::Backend("Session database operation failed"),
{
    StoreError::Backend("Session database operation failed")
}

/// What the database answered to storing a new session.
#[derive(Debug, Clone, PartialEq, Eq)]
pub enum InsertResult {
    Inserted,
    /// Another session already has this identifier.
    IdTaken,
    /// Any other failure.
    Failed,
}

/// What creating a session does next.
#[derive(Debug, Clone, PartialEq, Eq)]
pub enum CreateStep {
    Done,
    /// Draw a new identifier and try again; another session is never overwritten.
    RetryWithNewId,
    Fail(StoreError),
}

pub fn create_step(result: InsertResult) -> (r: CreateStep)
    ensures
        r == match result {
            InsertResult::Inserted => CreateStep::Done,
            InsertResult::IdTaken => CreateStep::RetryWithNewId,
            InsertResult::Failed => CreateStep::Fail(
                StoreError::Backend("Session database operation failed"),
            ),
        },
{
    match result {
        InsertResult::Inserted => CreateStep::Done,
        InsertResult::IdTaken => CreateStep::RetryWithNewId,
        InsertResult::Failed => CreateStep::Fail(backend_error()),
    }
}

/// Saving updates a live session in place and never inserts one: unless
/// exactly one live row was updated, the session was revoked or has expired.
pub fn save_result(rows_affected: u64) -> (r: Result<(), StoreError>)
    ensures
        r is Ok <==> rows_affected == 1,
        r matches Err(e) ==> e == StoreError::Backend("Session expired or revoked"),
{
    if rows_affected != 1 {
        return Err(StoreError::Backend("Session expired or revoked"));
    }
    Ok(())
}

/// A stored session is live while its expiry lies after the present second.
pub open spec fn spec_session_live(expires_at: i64, now: i64) -> bool {
    expires_at > now
}

/// Whether a session that expires at `expires_at` (a Unix time) is live at `now`;
/// loads and saves see only live sessions, and the periodic cleanup removes the others.
pub fn session_live(expires_at: i64, now: i64) -> (r: bool)
    ensures
        r == spec_session_live(expires_at, now),
{
    expires_at > now
}

} // verus!
