//! The rows of the service and what storage reports of them.
//!
//! Storage itself is outside. Each function here takes what a storage
//! call reported, as a plain `Result`, and turns it into what the caller of
//! the service is told.
//!
//! A change of a row takes two statements, the change and the lookup of the
//! changed row. They are made on one lease and as one unit: the change is
//! kept exactly if the caller is answered with the changed row. An answer
//! that is an error leaves the row as it was.

pub mod cliente;
pub mod orcamento;
pub mod orcamento_produto;
pub mod produto;
pub mod user;

use crate::database::StorageError;
use crate::errors::{
    answers, internal_text, normalize_storage, single, storage_outward, ApiError, ApiErrorView,
    ErrorKind,
};
use vstd::prelude::*;

verus! {

/// Whether a change is to be kept, given the answer that its statements
/// led to: exactly if the answer is the changed row and no error.
pub fn keeps_change<T>(answer: &Result<T, ApiError>) -> (keep: bool)
    ensures
        keep == (answer is Ok),
{
    answer.is_ok()
}

/// What the caller is told of a change, given how its unit ended and the
/// answer that its statements led to, if they were made at all.
///
/// An answer that is an error stands. An answer that is the changed row
/// stands only if the unit ended well, which is when the change was kept;
/// if it did not, the caller is told the failure's outward form. Where the
/// statements were never made, because no lease could be had, the failure
/// of the unit is all there is to tell.
pub open spec fn change_outcome<T>(
    closed: Result<(), StorageError>,
    answer: Option<Result<T, ApiError>>,
) -> Result<T, ApiErrorView> {
    match answer {
        Some(Ok(row)) => match closed {
            Ok(_) => Ok(row),
            Err(e) => Err(storage_outward(e)),
        },
        Some(Err(e)) => Err(e@),
        None => match closed {
            Ok(_) => Err(single(ErrorKind::InternalFailure, internal_text())),
            Err(e) => Err(storage_outward(e)),
        },
    }
}

/// Reads how the unit of a change ended. An answer that is an error comes
/// back as the same value.
pub fn settle_change<T>(closed: Result<(), StorageError>, answer: Option<Result<T, ApiError>>)
    -> (told: Result<T, ApiError>)
    ensures
        answers(told, change_outcome(closed, answer)),
        answer matches Some(Err(e)) ==> told == Err::<T, ApiError>(e),
{
    match answer {
        Some(Ok(row)) => match closed {
            Ok(_) => Ok(row),
            Err(e) => Err(normalize_storage(e)),
        },
        Some(Err(e)) => Err(e),
        None => match closed {
            Ok(_) => Err(ApiError::internal()),
            Err(e) => Err(normalize_storage(e)),
        },
    }
}

/// The caller is told of a changed row only where the change was kept:
/// where the unit did not end well, or the statements led to an error, the
/// caller is told an error.
pub proof fn lemma_change_is_told_only_if_kept<T>(
    closed: Result<(), StorageError>,
    answer: Option<Result<T, ApiError>>,
)
    ensures
        change_outcome(closed, answer) is Ok <==> closed is Ok && answer is Some
            && answer->Some_0 is Ok,
{
}

/// A copy of an optional text.
pub fn clone_text(text: &Option<String>) -> (copy: Option<String>)
    ensures
        copy == *text,
{
    match text {
        Some(t) => Some(t.clone()),
        None => None,
    }
}

} // verus!
