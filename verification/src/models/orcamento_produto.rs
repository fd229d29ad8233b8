//! Lines of quotes: the rows, and the reading of what storage reports of
//! them. A line says how many of one product a quote holds.

use crate::clock::now;
use crate::database::StorageError;
use crate::errors::{
    answers, internal_text, missing_text, normalize_storage, single, storage_outward, ApiError,
    ApiErrorView, ErrorKind,
};
use crate::handlers::orcamento_produto::OrcamentoProdutoResponse;
use crate::ids::Uuid;
use chrono::NaiveDateTime;
use vstd::prelude::*;

verus! {

/// A line of a quote as stored.
#[derive(Clone, Debug, PartialEq)]
pub struct OrcamentoProduto {
    /// The line's UUID, as text.
    pub id: String,
    /// The product's UUID, as text.
    pub id_produto: String,
    /// The quote's UUID, as text.
    pub id_orcamento: String,
    pub quantidade: i32,
    pub created_by: String,
    pub created_at: NaiveDateTime,
}

/// A line of a quote about to be stored.
#[derive(Clone, Debug)]
pub struct NewOrcamentoProduto {
    pub id: String,
    pub id_produto: String,
    pub id_orcamento: String,
    pub quantidade: i32,
    pub created_by: String,
}

impl OrcamentoProduto {
    /// Whether this is the row for the new line, the moment apart: every
    /// field is taken over.
    pub open spec fn is_row_of(self, new: NewOrcamentoProduto) -> bool {
        &&& self.id == new.id
        &&& self.id_produto == new.id_produto
        &&& self.id_orcamento == new.id_orcamento
        &&& self.quantidade == new.quantidade
        &&& self.created_by == new.created_by
    }

    /// The row for a new line, made at the given moment.
    pub fn stamped(orcamento_produto: NewOrcamentoProduto, created_at: NaiveDateTime) -> (row:
        OrcamentoProduto)
        ensures
            row.is_row_of(orcamento_produto),
            row.created_at == created_at,
    {
        OrcamentoProduto {
            id: orcamento_produto.id,
            id_produto: orcamento_produto.id_produto,
            id_orcamento: orcamento_produto.id_orcamento,
            quantidade: orcamento_produto.quantidade,
            created_by: orcamento_produto.created_by,
            created_at,
        }
    }

    /// The row for a new line, made now.
    pub fn from(orcamento_produto: NewOrcamentoProduto) -> (row: OrcamentoProduto)
        ensures
            row.is_row_of(orcamento_produto),
    {
        OrcamentoProduto::stamped(orcamento_produto, now())
    }

    /// A copy of the row.
    pub fn duplicate(&self) -> (copy: OrcamentoProduto)
        ensures
            copy == *self,
    {
        OrcamentoProduto {
            id: self.id.clone(),
            id_produto: self.id_produto.clone(),
            id_orcamento: self.id_orcamento.clone(),
            quantidade: self.quantidade,
            created_by: self.created_by.clone(),
            created_at: self.created_at,
        }
    }
}

/// What the caller is told of a row that storage handed over: the row's
/// outward form, or an internal failure if the row cannot be shown.
pub open spec fn shown(orcamento_produto: OrcamentoProduto) -> Result<
    OrcamentoProdutoResponse,
    ApiErrorView,
> {
    if OrcamentoProdutoResponse::complete(orcamento_produto) {
        Ok(OrcamentoProdutoResponse::of(orcamento_produto))
    } else {
        Err(single(ErrorKind::InternalFailure, internal_text()))
    }
}

/// Shows a row, if it can be shown.
fn show(orcamento_produto: OrcamentoProduto) -> (answer: Result<
    OrcamentoProdutoResponse,
    ApiError,
>)
    ensures
        answers(answer, shown(orcamento_produto)),
{
    if OrcamentoProdutoResponse::is_complete(&orcamento_produto) {
        Ok(OrcamentoProdutoResponse::from(orcamento_produto))
    } else {
        Err(ApiError::internal())
    }
}

/// What the caller is told of a lookup by id.
///
/// A row that was found is shown. A missing row is `NotFound`, with a text
/// that names the line by the id that was asked for. Any other failure is
/// answered by its outward form.
pub open spec fn found(orcamento_produto_id: u128, fetched: Result<OrcamentoProduto, StorageError>)
    -> Result<OrcamentoProdutoResponse, ApiErrorView> {
    match fetched {
        Ok(orcamento_produto) => shown(orcamento_produto),
        Err(StorageError::NotFound) => Err(
            single(ErrorKind::NotFound, missing_text("OrcamentoProduto"@, orcamento_produto_id)),
        ),
        Err(e) => Err(storage_outward(e)),
    }
}

/// Reads the report of looking a line up by id.
pub fn find(orcamento_produto_id: Uuid, fetched: Result<OrcamentoProduto, StorageError>) -> (answer:
    Result<OrcamentoProdutoResponse, ApiError>)
    ensures
        answers(answer, found(orcamento_produto_id@, fetched)),
{
    match fetched {
        Ok(orcamento_produto) => show(orcamento_produto),
        Err(StorageError::NotFound) => Err(
            ApiError::missing("OrcamentoProduto", &orcamento_produto_id),
        ),
        Err(e) => Err(normalize_storage(e)),
    }
}

/// What the caller is told of storing a new line: the row's outward form
/// if it was stored, the failure's outward form if not.
pub open spec fn created(
    new_orcamento_produto: OrcamentoProduto,
    inserted: Result<usize, StorageError>,
) -> Result<OrcamentoProdutoResponse, ApiErrorView> {
    match inserted {
        Ok(_) => shown(new_orcamento_produto),
        Err(e) => Err(storage_outward(e)),
    }
}

/// Reads the report of storing a new line.
pub fn create(new_orcamento_produto: &OrcamentoProduto, inserted: Result<usize, StorageError>)
    -> (answer: Result<OrcamentoProdutoResponse, ApiError>)
    ensures
        answers(answer, created(*new_orcamento_produto, inserted)),
{
    match inserted {
        Ok(_) => show(new_orcamento_produto.duplicate()),
        Err(e) => Err(normalize_storage(e)),
    }
}

/// What the caller is told of a deletion. Deleting a line that is not
/// there is no failure.
pub open spec fn deleted_outcome(deleted: Result<usize, StorageError>) -> Result<(), ApiErrorView> {
    match deleted {
        Ok(_) => Ok(()),
        Err(e) => Err(storage_outward(e)),
    }
}

/// Reads the report of deleting a line.
pub fn delete(deleted: Result<usize, StorageError>) -> (answer: Result<(), ApiError>)
    ensures
        answers(answer, deleted_outcome(deleted)),
{
    match deleted {
        Ok(_) => Ok(()),
        Err(e) => Err(normalize_storage(e)),
    }
}

/// What is answered when a row was stored is what is answered when that
/// row is found again, whatever id it is asked for by.
pub proof fn lemma_created_is_found(row: OrcamentoProduto, stored: usize, asked: u128)
    ensures
        created(row, Ok(stored)) == found(asked, Ok(row)),
{
}

} // verus!
