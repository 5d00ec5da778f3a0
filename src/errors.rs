use vstd::prelude::*;
use vstd::string::*;

use crate::store::{failure_of, store_failure_of};

verus! {

/// The closed set of failures that a request can end in.
#[derive(Debug, Clone, PartialEq, Eq)]
pub enum AppError {
    RecordAlreadyExists,
    RecordNotFound,
    /// Any other store failure; the cause is kept for diagnostics.
    DatabaseError(String),
    OperationCanceled,
}

/// What the store reported, reduced to what the taxonomy distinguishes.
#[derive(Debug, Clone, PartialEq, Eq)]
pub enum StoreFailure {
    UniqueViolation,
    NotFound,
    /// Any other failure, with a description of it.
    Other(String),
}

/// Message text for a database failure with the given cause.
pub open spec fn database_message(cause: Seq<char>) -> Seq<char> {
    "Database error: "@ + cause
}

impl AppError {
    /// The HTTP status code that this failure is rendered with.
    pub open spec fn status_spec(&self) -> u16 {
        match self {
            AppError::RecordAlreadyExists => 400,
            AppError::RecordNotFound => 404,
            AppError::DatabaseError(_) => 500,
            AppError::OperationCanceled => 500,
        }
    }

    /// The human-readable message of this failure.
    pub open spec fn message_spec(&self) -> Seq<char> {
        match self {
            AppError::RecordAlreadyExists => "This record violates a unique constraint"@,
            AppError::RecordNotFound => "This record does not exist"@,
            AppError::DatabaseError(cause) => database_message(cause@),
            AppError::OperationCanceled => "The running operation was canceled"@,
        }
    }

    /// The kind that a store failure is classified into.
    pub open spec fn from_failure_spec(f: StoreFailure) -> AppError {
        match f {
            StoreFailure::UniqueViolation => AppError::RecordAlreadyExists,
            StoreFailure::NotFound => AppError::RecordNotFound,
            StoreFailure::Other(cause) => AppError::DatabaseError(cause),
        }
    }

    /// The kind that the outcome of a background task is collapsed into:
    /// the task's own error, or `OperationCanceled` where it never finished.
    pub open spec fn from_blocking_spec(outcome: Option<AppError>) -> AppError {
        match outcome {
            Some(e) => e,
            None => AppError::OperationCanceled,
        }
    }

    pub fn from_failure(f: StoreFailure) -> (r: AppError)
        ensures
            r == Self::from_failure_spec(f),
    {
        match f {
            StoreFailure::UniqueViolation => AppError::RecordAlreadyExists,
            StoreFailure::NotFound => AppError::RecordNotFound,
            StoreFailure::Other(cause) => AppError::DatabaseError(cause),
        }
    }

    /// Classifies an error of the store driver.
    pub fn from_store_error(e: diesel::result::Error) -> (r: AppError)
        ensures
            r == Self::from_failure_spec(store_failure_of(e)),
            !(r is OperationCanceled),
    {
        Self::from_failure(failure_of(e))
    }

    pub fn from_blocking(outcome: Option<AppError>) -> (r: AppError)
        ensures
            r == Self::from_blocking_spec(outcome),
    {
        match outcome {
            Some(e) => e,
            None => AppError::OperationCanceled,
        }
    }

    pub fn status_code(&self) -> (r: u16)
        ensures
            r == self.status_spec(),
    {
        match self {
            AppError::RecordAlreadyExists => 400,
            AppError::RecordNotFound => 404,
            _ => 500,
        }
    }

    pub fn message(&self) -> (r: String)
        ensures
            r@ == self.message_spec(),
    {
        match self {
            AppError::RecordAlreadyExists => String::from_str("This record violates a unique constraint"),
            AppError::RecordNotFound => String::from_str("This record does not exist"),
            AppError::DatabaseError(cause) => {
                String::from_str("Database error: ").concat(cause.as_str())
            },
            AppError::OperationCanceled => String::from_str("The running operation was canceled"),
        }
    }
}

/// Every store failure renders with the status and message of the kind it is
/// classified into: a unique violation as 400, a missing row as 404, and any
/// other failure, whatever its cause, as 500 with that cause in the message.
pub proof fn lemma_failure_rendering(f: StoreFailure)
    ensures
        ({
            let e = AppError::from_failure_spec(f);
            match f {
                StoreFailure::UniqueViolation => e.status_spec() == 400 && e.message_spec()
                    == "This record violates a unique constraint"@,
                StoreFailure::NotFound => e.status_spec() == 404 && e.message_spec()
                    == "This record does not exist"@,
                StoreFailure::Other(cause) => e.status_spec() == 500 && e.message_spec()
                    == "Database error: "@ + cause@,
            }
        }),
{
}

/// A background task that finished passes its own error through unchanged; one
/// that never finished renders as 500 with the cancellation message.
pub proof fn lemma_blocking_rendering(outcome: Option<AppError>)
    ensures
        outcome matches Some(e) ==> AppError::from_blocking_spec(outcome) == e,
        outcome is None ==> AppError::from_blocking_spec(outcome).status_spec() == 500
            && AppError::from_blocking_spec(outcome).message_spec()
            == "The running operation was canceled"@,
{
}

} // verus!
