//! Products: the rows, and the reading of what storage reports of them.
//!
//! Prices, costs and rates are binary64 numbers. The library does not
//! compute with them; it holds each by its 64 bits and hands it on.

use crate::clock::now;
use crate::database::StorageError;
use crate::errors::{
    answers, internal_text, missing_text, normalize_storage, single, storage_outward, ApiError,
    ApiErrorView, ErrorKind,
};
use crate::handlers::produto::{ProdutoResponse, ProdutosResponse};
use crate::ids::{uuid_parse, Uuid};
use crate::models::clone_text;
use chrono::NaiveDateTime;
use vstd::prelude::*;

verus! {

/// A product as stored.
#[derive(Clone, Debug, PartialEq)]
pub struct Produto {
    /// The product's UUID, as text.
    pub id: String,
    pub descricao: String,
    pub codigo_de_barras: Option<String>,
    pub icms: Option<String>,
    pub unidade_medida: Option<String>,
    /// The bits of the selling price.
    pub preco_venda: Option<u64>,
    /// The bits of the least price.
    pub preco_minimo: Option<u64>,
    /// The bits of the mean cost.
    pub custo_medio: Option<u64>,
    pub pis: Option<String>,
    pub cofins: Option<String>,
    pub ncm: Option<String>,
    pub cest: Option<String>,
    pub cod_ipi: Option<String>,
    /// The bits of the IPI rate.
    pub porcentagem_ipi: Option<u64>,
    pub created_by: String,
    pub created_at: NaiveDateTime,
    pub updated_by: String,
    pub updated_at: NaiveDateTime,
}

/// A product about to be stored.
#[derive(Clone, Debug)]
pub struct NewProduto {
    pub id: String,
    pub descricao: String,
    pub codigo_de_barras: Option<String>,
    pub icms: Option<String>,
    pub unidade_medida: Option<String>,
    pub preco_venda: Option<u64>,
    pub preco_minimo: Option<u64>,
    pub custo_medio: Option<u64>,
    pub pis: Option<String>,
    pub cofins: Option<String>,
    pub ncm: Option<String>,
    pub cest: Option<String>,
    pub cod_ipi: Option<String>,
    pub porcentagem_ipi: Option<u64>,
    pub created_by: String,
    pub updated_by: String,
}

/// The new values for a stored product.
#[derive(Clone, Debug)]
pub struct UpdateProduto {
    pub id: String,
    pub descricao: String,
    pub codigo_de_barras: Option<String>,
    pub icms: Option<String>,
    pub unidade_medida: Option<String>,
    pub preco_venda: Option<u64>,
    pub preco_minimo: Option<u64>,
    pub custo_medio: Option<u64>,
    pub pis: Option<String>,
    pub cofins: Option<String>,
    pub ncm: Option<String>,
    pub cest: Option<String>,
    pub cod_ipi: Option<String>,
    pub porcentagem_ipi: Option<u64>,
    pub updated_by: String,
}

impl Produto {
    /// Whether this is the row for the new product, the two moments apart:
    /// every field is taken over.
    pub open spec fn is_row_of(self, new: NewProduto) -> bool {
        &&& self.id == new.id
        &&& self.descricao == new.descricao
        &&& self.codigo_de_barras == new.codigo_de_barras
        &&& self.icms == new.icms
        &&& self.unidade_medida == new.unidade_medida
        &&& self.preco_venda == new.preco_venda
        &&& self.preco_minimo == new.preco_minimo
        &&& self.custo_medio == new.custo_medio
        &&& self.pis == new.pis
        &&& self.cofins == new.cofins
        &&& self.ncm == new.ncm
        &&& self.cest == new.cest
        &&& self.cod_ipi == new.cod_ipi
        &&& self.porcentagem_ipi == new.porcentagem_ipi
        &&& self.created_by == new.created_by
        &&& self.updated_by == new.updated_by
    }

    /// The row for a new product, made and last changed at the given
    /// moments.
    pub fn stamped(produto: NewProduto, created_at: NaiveDateTime, updated_at: NaiveDateTime)
        -> (row: Produto)
        ensures
            row.is_row_of(produto),
            row.created_at == created_at,
            row.updated_at == updated_at,
    {
        Produto {
            id: produto.id,
            descricao: produto.descricao,
            codigo_de_barras: produto.codigo_de_barras,
            icms: produto.icms,
            unidade_medida: produto.unidade_medida,
            preco_venda: produto.preco_venda,
            preco_minimo: produto.preco_minimo,
            custo_medio: produto.custo_medio,
            pis: produto.pis,
            cofins: produto.cofins,
            ncm: produto.ncm,
            cest: produto.cest,
            cod_ipi: produto.cod_ipi,
            porcentagem_ipi: produto.porcentagem_ipi,
            created_by: produto.created_by,
            created_at,
            updated_by: produto.updated_by,
            updated_at,
        }
    }

    /// The row for a new product, made and last changed now. The clock is
    /// read twice, once for each moment.
    pub fn from(produto: NewProduto) -> (row: Produto)
        ensures
            row.is_row_of(produto),
    {
        let created_at = now();
        let updated_at = now();
        Produto::stamped(produto, created_at, updated_at)
    }

    /// A copy of the row.
    pub fn duplicate(&self) -> (copy: Produto)
        ensures
            copy == *self,
    {
        Produto {
            id: self.id.clone(),
            descricao: self.descricao.clone(),
            codigo_de_barras: clone_text(&self.codigo_de_barras),
            icms: clone_text(&self.icms),
            unidade_medida: clone_text(&self.unidade_medida),
            preco_venda: self.preco_venda,
            preco_minimo: self.preco_minimo,
            custo_medio: self.custo_medio,
            pis: clone_text(&self.pis),
            cofins: clone_text(&self.cofins),
            ncm: clone_text(&self.ncm),
            cest: clone_text(&self.cest),
            cod_ipi: clone_text(&self.cod_ipi),
            porcentagem_ipi: self.porcentagem_ipi,
            created_by: self.created_by.clone(),
            created_at: self.created_at,
            updated_by: self.updated_by.clone(),
            updated_at: self.updated_at,
        }
    }
}

/// What the caller is told of a row that storage handed over: the row's
/// outward form, or an internal failure if the row cannot be shown.
pub open spec fn shown(produto: Produto) -> Result<ProdutoResponse, ApiErrorView> {
    if ProdutoResponse::complete(produto) {
        Ok(ProdutoResponse::of(produto))
    } else {
        Err(single(ErrorKind::InternalFailure, internal_text()))
    }
}

/// Shows a row, if it can be shown.
fn show(produto: Produto) -> (answer: Result<ProdutoResponse, ApiError>)
    ensures
        answers(answer, shown(produto)),
{
    if ProdutoResponse::is_complete(&produto) {
        Ok(ProdutoResponse::from(produto))
    } else {
        Err(ApiError::internal())
    }
}

/// What the caller is told of a load of all products.
///
/// The rows come back in their outward form, in the order storage gave
/// them. One row that cannot be shown fails the whole answer as an internal
/// failure; a failed load is answered by its outward form.
pub open spec fn listed(loaded: Result<Vec<Produto>, StorageError>) -> Result<
    Seq<ProdutoResponse>,
    ApiErrorView,
> {
    match loaded {
        Ok(rows) => if ProdutosResponse::all_complete(rows@) {
            Ok(ProdutosResponse::of(rows@))
        } else {
            Err(single(ErrorKind::InternalFailure, internal_text()))
        },
        Err(e) => Err(storage_outward(e)),
    }
}

/// Reads the report of loading all products.
pub fn get_all(loaded: Result<Vec<Produto>, StorageError>) -> (answer: Result<
    ProdutosResponse,
    ApiError,
>)
    ensures
        match listed(loaded) {
            Ok(responses) => answer is Ok && answer->Ok_0.0@ == responses,
            Err(e) => answer is Err && answer->Err_0@ == e,
        },
{
    match loaded {
        Ok(rows) => {
            let mut i: usize = 0;
            while i < rows.len()
                invariant
                    loaded == Ok::<Vec<Produto>, StorageError>(rows),
                    i <= rows@.len(),
                    forall|k: int| 0 <= k < i ==> ProdutoResponse::complete(#[trigger] rows@[k]),
                decreases rows.len() - i,
            {
                if !ProdutoResponse::is_complete(&rows[i]) {
                    assert(!ProdutoResponse::complete(rows@[i as int]));
                    return Err(ApiError::internal());
                }
                i += 1;
            }
            Ok(ProdutosResponse::from(rows))
        },
        Err(e) => Err(normalize_storage(e)),
    }
}

/// What the caller is told of a lookup by id.
///
/// A row that was found is shown. A missing row is `NotFound`, with a text
/// that names the product by the id that was asked for. Any other failure
/// is answered by its outward form.
pub open spec fn found(produto_id: u128, fetched: Result<Produto, StorageError>) -> Result<
    ProdutoResponse,
    ApiErrorView,
> {
    match fetched {
        Ok(produto) => shown(produto),
        Err(StorageError::NotFound) => Err(
            single(ErrorKind::NotFound, missing_text("Produto"@, produto_id)),
        ),
        Err(e) => Err(storage_outward(e)),
    }
}

/// Reads the report of looking a product up by id.
pub fn find(produto_id: Uuid, fetched: Result<Produto, StorageError>) -> (answer: Result<
    ProdutoResponse,
    ApiError,
>)
    ensures
        answers(answer, found(produto_id@, fetched)),
{
    match fetched {
        Ok(produto) => show(produto),
        Err(StorageError::NotFound) => Err(ApiError::missing("Produto", &produto_id)),
        Err(e) => Err(normalize_storage(e)),
    }
}

/// What the caller is told of storing a new product: the row's outward
/// form if it was stored, the failure's outward form if not.
pub open spec fn created(new_produto: Produto, inserted: Result<usize, StorageError>) -> Result<
    ProdutoResponse,
    ApiErrorView,
> {
    match inserted {
        Ok(_) => shown(new_produto),
        Err(e) => Err(storage_outward(e)),
    }
}

/// Reads the report of storing a new product.
pub fn create(new_produto: &Produto, inserted: Result<usize, StorageError>) -> (answer: Result<
    ProdutoResponse,
    ApiError,
>)
    ensures
        answers(answer, created(*new_produto, inserted)),
{
    match inserted {
        Ok(_) => show(new_produto.duplicate()),
        Err(e) => Err(normalize_storage(e)),
    }
}

/// What follows a change of a stored product: the id of the row, which is
/// then looked up and read with [`find`]. An id that is no UUID is an
/// internal failure; a failed change is answered by its outward form.
pub open spec fn updated_id(update_produto: UpdateProduto, updated: Result<usize, StorageError>)
    -> Result<u128, ApiErrorView> {
    match updated {
        Ok(_) => match uuid_parse(update_produto.id@) {
            Some(id) => Ok(id),
            None => Err(single(ErrorKind::InternalFailure, internal_text())),
        },
        Err(e) => Err(storage_outward(e)),
    }
}

/// Reads the report of changing a stored product.
pub fn update(update_produto: &UpdateProduto, updated: Result<usize, StorageError>) -> (answer:
    Result<Uuid, ApiError>)
    ensures
        match updated_id(*update_produto, updated) {
            Ok(id) => answer is Ok && answer->Ok_0@ == id,
            Err(e) => answer is Err && answer->Err_0@ == e,
        },
{
    match updated {
        Ok(_) => match Uuid::parse_str(update_produto.id.as_str()) {
            Some(id) => Ok(id),
            None => Err(ApiError::internal()),
        },
        Err(e) => Err(normalize_storage(e)),
    }
}

/// What the caller is told of a deletion. Deleting a product that is not
/// there is no failure.
pub open spec fn deleted_outcome(deleted: Result<usize, StorageError>) -> Result<(), ApiErrorView> {
    match deleted {
        Ok(_) => Ok(()),
        Err(e) => Err(storage_outward(e)),
    }
}

/// Reads the report of deleting a product.
pub fn delete(deleted: Result<usize, StorageError>) -> (answer: Result<(), ApiError>)
    ensures
        answers(answer, deleted_outcome(deleted)),
{
    match deleted {
        Ok(_) => Ok(()),
        Err(e) => Err(normalize_storage(e)),
    }
}

/// What is answered when a row was stored is what is answered when that
/// row is found again, whatever id it is asked for by.
pub proof fn lemma_created_is_found(row: Produto, stored: usize, asked: u128)
    ensures
        created(row, Ok(stored)) == found(asked, Ok(row)),
{
}

} // verus!
