//! The kinds of failure that the catalog reports.

use vstd::prelude::*;

verus! {

/// A fault of the store: the connection was lost, the query was refused, a
/// constraint was violated. The detail is kept for the log and never shown.
#[derive(Debug)]
pub struct StoreError {
    pub detail: String,
}

/// What a caller of the catalog can be told went wrong.
#[derive(Debug)]
pub enum AppError {
    /// The one entity asked for does not exist.
    NotFound(String),
    /// An input was malformed.
    ValidationError(String),
    /// The store failed; the cause is kept for the log.
    DatabaseError(StoreError),
    /// Anything else.
    InternalError,
}

/// The text shown for a failure of the store, whatever its cause.
pub open spec fn database_message() -> Seq<char> {
    "Database error"@
}

/// The text shown for a failure of no other kind.
pub open spec fn internal_message() -> Seq<char> {
    "Internal server error"@
}

impl AppError {
    /// The text that may be shown to the caller.
    pub open spec fn spec_message(&self) -> Seq<char> {
        match self {
            AppError::NotFound(text) => text@,
            AppError::ValidationError(text) => text@,
            AppError::DatabaseError(_) => database_message(),
            AppError::InternalError => internal_message(),
        }
    }

    /// The text that may be shown to the caller: what was not found, what was
    /// malformed, and for a failure of the store a fixed text that holds
    /// nothing of its cause.
    pub fn message(&self) -> (r: String)
        ensures
            r@ == self.spec_message(),
    {
        match self {
            AppError::NotFound(text) => text.clone(),
            AppError::ValidationError(text) => text.clone(),
            AppError::DatabaseError(_) => "Database error".to_owned(),
            AppError::InternalError => "Internal server error".to_owned(),
        }
    }
}

} // verus!
