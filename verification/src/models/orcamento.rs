//! Quotes: the rows, and the reading of what storage reports of them.

use crate::clock::now;
use crate::database::StorageError;
use crate::errors::{
    answers, internal_text, missing_text, normalize_storage, single, storage_outward, ApiError,
    ApiErrorView, ErrorKind,
};
use crate::handlers::orcamento::{OrcamentoResponse, OrcamentosResponse};
use crate::ids::Uuid;
use chrono::NaiveDateTime;
use vstd::prelude::*;

verus! {

/// A quote as stored.
#[derive(Clone, Debug, PartialEq)]
pub struct Orcamento {
    /// The quote's UUID, as text.
    pub id: String,
    pub created_by: String,
    pub created_at: NaiveDateTime,
}

/// A quote about to be stored.
#[derive(Clone, Debug)]
pub struct NewOrcamento {
    pub id: String,
    pub created_by: String,
}

impl Orcamento {
    /// Whether this is the row for the new quote, the moment apart.
    pub open spec fn is_row_of(self, new: NewOrcamento) -> bool {
        self.id == new.id && self.created_by == new.created_by
    }

    /// The row for a new quote, made at the given moment.
    pub fn stamped(orcamento: NewOrcamento, created_at: NaiveDateTime) -> (row: Orcamento)
        ensures
            row.is_row_of(orcamento),
            row.created_at == created_at,
    {
        Orcamento { id: orcamento.id, created_by: orcamento.created_by, created_at }
    }

    /// The row for a new quote, made now.
    pub fn from(orcamento: NewOrcamento) -> (row: Orcamento)
        ensures
            row.is_row_of(orcamento),
    {
        Orcamento::stamped(orcamento, now())
    }

    /// A copy of the row.
    pub fn duplicate(&self) -> (copy: Orcamento)
        ensures
            copy == *self,
    {
        Orcamento {
            id: self.id.clone(),
            created_by: self.created_by.clone(),
            created_at: self.created_at,
        }
    }
}

/// What the caller is told of a row that storage handed over: the row's
/// outward form, or an internal failure if the row cannot be shown.
pub open spec fn shown(orcamento: Orcamento) -> Result<OrcamentoResponse, ApiErrorView> {
    if OrcamentoResponse::complete(orcamento) {
        Ok(OrcamentoResponse::of(orcamento))
    } else {
        Err(single(ErrorKind::InternalFailure, internal_text()))
    }
}

/// Shows a row, if it can be shown.
fn show(orcamento: Orcamento) -> (answer: Result<OrcamentoResponse, ApiError>)
    ensures
        answers(answer, shown(orcamento)),
{
    if OrcamentoResponse::is_complete(&orcamento) {
        Ok(OrcamentoResponse::from(orcamento))
    } else {
        Err(ApiError::internal())
    }
}

/// What the caller is told of a load of all quotes.
///
/// The rows come back in their outward form, in the order storage gave
/// them. One row that cannot be shown fails the whole answer as an internal
/// failure; a failed load is answered by its outward form.
pub open spec fn listed(loaded: Result<Vec<Orcamento>, StorageError>) -> Result<
    Seq<OrcamentoResponse>,
    ApiErrorView,
> {
    match loaded {
        Ok(rows) => if OrcamentosResponse::all_complete(rows@) {
            Ok(OrcamentosResponse::of(rows@))
        } else {
            Err(single(ErrorKind::InternalFailure, internal_text()))
        },
        Err(e) => Err(storage_outward(e)),
    }
}

/// Reads the report of loading all quotes.
pub fn get_all(loaded: Result<Vec<Orcamento>, StorageError>) -> (answer: Result<
    OrcamentosResponse,
    ApiError,
>)
    ensures
        match listed(loaded) {
            Ok(responses) => answer is Ok && answer->Ok_0.0@ == responses,
            Err(e) => answer is Err && answer->Err_0@ == e,
        },
{
    match loaded {
        Ok(rows) => {
            let mut i: usize = 0;
            while i < rows.len()
                invariant
                    loaded == Ok::<Vec<Orcamento>, StorageError>(rows),
                    i <= rows@.len(),
                    forall|k: int|
                        0 <= k < i ==> OrcamentoResponse::complete(#[trigger] rows@[k]),
                decreases rows.len() - i,
            {
                if !OrcamentoResponse::is_complete(&rows[i]) {
                    assert(!OrcamentoResponse::complete(rows@[i as int]));
                    return Err(ApiError::internal());
                }
                i += 1;
            }
            Ok(OrcamentosResponse::from(rows))
        },
        Err(e) => Err(normalize_storage(e)),
    }
}

/// What the caller is told of a lookup by id.
///
/// A row that was found is shown. A missing row is `NotFound`, with a text
/// that names the quote by the id that was asked for. Any other failure is
/// answered by its outward form.
pub open spec fn found(orcamento_id: u128, fetched: Result<Orcamento, StorageError>) -> Result<
    OrcamentoResponse,
    ApiErrorView,
> {
    match fetched {
        Ok(orcamento) => shown(orcamento),
        Err(StorageError::NotFound) => Err(
            single(ErrorKind::NotFound, missing_text("Orcamento"@, orcamento_id)),
        ),
        Err(e) => Err(storage_outward(e)),
    }
}

/// Reads the report of looking a quote up by id.
pub fn find(orcamento_id: Uuid, fetched: Result<Orcamento, StorageError>) -> (answer: Result<
    OrcamentoResponse,
    ApiError,
>)
    ensures
        answers(answer, found(orcamento_id@, fetched)),
{
    match fetched {
        Ok(orcamento) => show(orcamento),
        Err(StorageError::NotFound) => Err(ApiError::missing("Orcamento", &orcamento_id)),
        Err(e) => Err(normalize_storage(e)),
    }
}

/// What the caller is told of storing a new quote: the row's outward form
/// if it was stored, the failure's outward form if not.
pub open spec fn created(new_orcamento: Orcamento, inserted: Result<usize, StorageError>)
    -> Result<OrcamentoResponse, ApiErrorView> {
    match inserted {
        Ok(_) => shown(new_orcamento),
        Err(e) => Err(storage_outward(e)),
    }
}

/// Reads the report of storing a new quote.
pub fn create(new_orcamento: &Orcamento, inserted: Result<usize, StorageError>) -> (answer: Result<
    OrcamentoResponse,
    ApiError,
>)
    ensures
        answers(answer, created(*new_orcamento, inserted)),
{
    match inserted {
        Ok(_) => show(new_orcamento.duplicate()),
        Err(e) => Err(normalize_storage(e)),
    }
}

/// What the caller is told of a deletion. Deleting a quote that is not
/// there is no failure.
pub open spec fn deleted_outcome(deleted: Result<usize, StorageError>) -> Result<(), ApiErrorView> {
    match deleted {
        Ok(_) => Ok(()),
        Err(e) => Err(storage_outward(e)),
    }
}

/// Reads the report of deleting a quote.
pub fn delete(deleted: Result<usize, StorageError>) -> (answer: Result<(), ApiError>)
    ensures
        answers(answer, deleted_outcome(deleted)),
{
    match deleted {
        Ok(_) => Ok(()),
        Err(e) => Err(normalize_storage(e)),
    }
}

/// What is answered when a row was stored is what is answered when that
/// row is found again, whatever id it is asked for by.
pub proof fn lemma_created_is_found(row: Orcamento, stored: usize, asked: u128)
    ensures
        created(row, Ok(stored)) == found(asked, Ok(row)),
{
}

} // verus!
