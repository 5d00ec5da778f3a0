use actix_web::error::BlockingError;
use vstd::prelude::*;

use crate::errors::AppError;

verus! {

#[verifier::external_type_specification]
#[verifier::reject_recursive_types(E)]
pub struct ExBlockingError<E: core::fmt::Debug>(BlockingError<E>);

impl AppError {
    /// Collapses the failure of a task run on the blocking thread pool: the
    /// task's own error unchanged, or `OperationCanceled` where the task never
    /// finished.
    pub fn from_blocking_error(e: BlockingError<AppError>) -> (r: AppError)
        ensures
            r == (match e {
                BlockingError::Error(inner) => inner,
                BlockingError::Canceled => AppError::OperationCanceled,
            }),
    {
        match e {
            BlockingError::Error(inner) => Self::from_blocking(Some(inner)),
            BlockingError::Canceled => Self::from_blocking(None),
        }
    }
}

} // verus!
