use vstd::prelude::*;

use crate::types::TypeSystemError;

verus! {

/// sqlx's error type, carried through unchanged as the cause of a failure.
#[verifier::external_type_specification]
#[verifier::external_body]
pub struct ExSqlxError(sqlx::Error);

/// The failures of a store operation, by the phase in which they arose.
#[derive(Debug)]
pub enum StoreError {
    /// A connection string could not be parsed, or a connection or
    /// transaction could not be obtained.
    ConnectionFailed(sqlx::Error),
    /// A statement or a commit was rejected by the database.
    ExecuteFailed(sqlx::Error),
    /// A read query failed.
    FetchFailed(sqlx::Error),
    /// The metadata read back is inconsistent.
    TypeError(TypeSystemError),
}

} // verus!
