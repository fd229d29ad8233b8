//! Customers: the rows, and the reading of what storage reports of them.

use crate::clock::now;
use crate::database::StorageError;
use crate::errors::{
    answers, internal_text, missing_text, normalize_storage, single, storage_outward, ApiError,
    ApiErrorView, ErrorKind,
};
use crate::handlers::cliente::{ClienteResponse, ClientesResponse};
use crate::ids::{uuid_parse, Uuid};
use crate::models::clone_text;
use chrono::NaiveDateTime;
use vstd::prelude::*;

verus! {

/// A customer as stored.
#[derive(Clone, Debug, PartialEq)]
pub struct Cliente {
    /// The customer's UUID, as text.
    pub id: String,
    pub nome: String,
    pub sobrenome: String,
    pub cpf: Option<String>,
    pub rg: Option<String>,
    pub data_nascimento: Option<NaiveDateTime>,
    pub sexo: Option<String>,
    pub estado_civil: Option<String>,
    pub telefone: Option<String>,
    pub created_by: String,
    pub created_at: NaiveDateTime,
    pub updated_by: String,
    pub updated_at: NaiveDateTime,
}

/// A customer about to be stored.
#[derive(Clone, Debug)]
pub struct NewCliente {
    pub id: String,
    pub nome: String,
    pub sobrenome: String,
    pub cpf: Option<String>,
    pub rg: Option<String>,
    pub data_nascimento: Option<NaiveDateTime>,
    pub sexo: Option<String>,
    pub estado_civil: Option<String>,
    pub telefone: Option<String>,
    pub created_by: String,
    pub updated_by: String,
}

/// The new values for a stored customer.
#[derive(Clone, Debug)]
pub struct UpdateCliente {
    pub id: String,
    pub nome: String,
    pub sobrenome: String,
    pub cpf: Option<String>,
    pub rg: Option<String>,
    pub data_nascimento: Option<NaiveDateTime>,
    pub sexo: Option<String>,
    pub estado_civil: Option<String>,
    pub telefone: Option<String>,
    pub updated_by: String,
}

impl Cliente {
    /// Whether this is the row for the new customer, the two moments
    /// apart: every field is taken over.
    pub open spec fn is_row_of(self, new: NewCliente) -> bool {
        &&& self.id == new.id
        &&& self.nome == new.nome
        &&& self.sobrenome == new.sobrenome
        &&& self.cpf == new.cpf
        &&& self.rg == new.rg
        &&& self.data_nascimento == new.data_nascimento
        &&& self.sexo == new.sexo
        &&& self.estado_civil == new.estado_civil
        &&& self.telefone == new.telefone
        &&& self.created_by == new.created_by
        &&& self.updated_by == new.updated_by
    }

    /// The row for a new customer, made and last changed at the given
    /// moments.
    pub fn stamped(cliente: NewCliente, created_at: NaiveDateTime, updated_at: NaiveDateTime)
        -> (row: Cliente)
        ensures
            row.is_row_of(cliente),
            row.created_at == created_at,
            row.updated_at == updated_at,
    {
        Cliente {
            id: cliente.id,
            nome: cliente.nome,
            sobrenome: cliente.sobrenome,
            cpf: cliente.cpf,
            rg: cliente.rg,
            data_nascimento: cliente.data_nascimento,
            sexo: cliente.sexo,
            estado_civil: cliente.estado_civil,
            telefone: cliente.telefone,
            created_by: cliente.created_by,
            created_at,
            updated_by: cliente.updated_by,
            updated_at,
        }
    }

    /// The row for a new customer, made and last changed now. The clock
    /// is read twice, once for each moment.
    pub fn from(cliente: NewCliente) -> (row: Cliente)
        ensures
            row.is_row_of(cliente),
    {
        let created_at = now();
        let updated_at = now();
        Cliente::stamped(cliente, created_at, updated_at)
    }

    /// A copy of the row.
    pub fn duplicate(&self) -> (copy: Cliente)
        ensures
            copy == *self,
    {
        Cliente {
            id: self.id.clone(),
            nome: self.nome.clone(),
            sobrenome: self.sobrenome.clone(),
            cpf: clone_text(&self.cpf),
            rg: clone_text(&self.rg),
            data_nascimento: self.data_nascimento,
            sexo: clone_text(&self.sexo),
            estado_civil: clone_text(&self.estado_civil),
            telefone: clone_text(&self.telefone),
            created_by: self.created_by.clone(),
            created_at: self.created_at,
            updated_by: self.updated_by.clone(),
            updated_at: self.updated_at,
        }
    }
}

/// What the caller is told of a row that storage handed over: the row's
/// outward form, or an internal failure if the row cannot be shown.
pub open spec fn shown(cliente: Cliente) -> Result<ClienteResponse, ApiErrorView> {
    if ClienteResponse::complete(cliente) {
        Ok(ClienteResponse::of(cliente))
    } else {
        Err(single(ErrorKind::InternalFailure, internal_text()))
    }
}

/// Shows a row, if it can be shown.
fn show(cliente: Cliente) -> (answer: Result<ClienteResponse, ApiError>)
    ensures
        answers(answer, shown(cliente)),
{
    if ClienteResponse::is_complete(&cliente) {
        Ok(ClienteResponse::from(cliente))
    } else {
        Err(ApiError::internal())
    }
}

/// What the caller is told of a load of all customers.
///
/// The rows come back in their outward form, in the order storage gave
/// them. One row that cannot be shown fails the whole answer as an internal
/// failure; a failed load is answered by its outward form.
pub open spec fn listed(loaded: Result<Vec<Cliente>, StorageError>) -> Result<
    Seq<ClienteResponse>,
    ApiErrorView,
> {
    match loaded {
        Ok(rows) => if ClientesResponse::all_complete(rows@) {
            Ok(ClientesResponse::of(rows@))
        } else {
            Err(single(ErrorKind::InternalFailure, internal_text()))
        },
        Err(e) => Err(storage_outward(e)),
    }
}

/// Reads the report of loading all customers.
pub fn get_all(loaded: Result<Vec<Cliente>, StorageError>) -> (answer: Result<
    ClientesResponse,
    ApiError,
>)
    ensures
        match listed(loaded) {
            Ok(responses) => answer is Ok && answer->Ok_0.0@ == responses,
            Err(e) => answer is Err && answer->Err_0@ == e,
        },
{
    match loaded {
        Ok(rows) => {
            let mut i: usize = 0;
            while i < rows.len()
                invariant
                    loaded == Ok::<Vec<Cliente>, StorageError>(rows),
                    i <= rows@.len(),
                    forall|k: int| 0 <= k < i ==> ClienteResponse::complete(#[trigger] rows@[k]),
                decreases rows.len() - i,
            {
                if !ClienteResponse::is_complete(&rows[i]) {
                    assert(!ClienteResponse::complete(rows@[i as int]));
                    return Err(ApiError::internal());
                }
                i += 1;
            }
            Ok(ClientesResponse::from(rows))
        },
        Err(e) => Err(normalize_storage(e)),
    }
}

/// What the caller is told of a lookup by id.
///
/// A row that was found is shown. A missing row is `NotFound`, with a text
/// that names the customer by the id that was asked for. Any other failure
/// is answered by its outward form.
pub open spec fn found(cliente_id: u128, fetched: Result<Cliente, StorageError>) -> Result<
    ClienteResponse,
    ApiErrorView,
> {
    match fetched {
        Ok(cliente) => shown(cliente),
        Err(StorageError::NotFound) => Err(
            single(ErrorKind::NotFound, missing_text("Cliente"@, cliente_id)),
        ),
        Err(e) => Err(storage_outward(e)),
    }
}

/// Reads the report of looking a customer up by id.
pub fn find(cliente_id: Uuid, fetched: Result<Cliente, StorageError>) -> (answer: Result<
    ClienteResponse,
    ApiError,
>)
    ensures
        answers(answer, found(cliente_id@, fetched)),
{
    match fetched {
        Ok(cliente) => show(cliente),
        Err(StorageError::NotFound) => Err(ApiError::missing("Cliente", &cliente_id)),
        Err(e) => Err(normalize_storage(e)),
    }
}

/// What the caller is told of storing a new customer: the row's outward
/// form if it was stored, the failure's outward form if not.
pub open spec fn created(new_cliente: Cliente, inserted: Result<usize, StorageError>) -> Result<
    ClienteResponse,
    ApiErrorView,
> {
    match inserted {
        Ok(_) => shown(new_cliente),
        Err(e) => Err(storage_outward(e)),
    }
}

/// Reads the report of storing a new customer.
pub fn create(new_cliente: &Cliente, inserted: Result<usize, StorageError>) -> (answer: Result<
    ClienteResponse,
    ApiError,
>)
    ensures
        answers(answer, created(*new_cliente, inserted)),
{
    match inserted {
        Ok(_) => show(new_cliente.duplicate()),
        Err(e) => Err(normalize_storage(e)),
    }
}

/// What follows a change of a stored customer: the id of the row, which
/// is then looked up and read with [`find`]. An id that is no UUID is an
/// internal failure; a failed change is answered by its outward form.
pub open spec fn updated_id(update_cliente: UpdateCliente, updated: Result<usize, StorageError>)
    -> Result<u128, ApiErrorView> {
    match updated {
        Ok(_) => match uuid_parse(update_cliente.id@) {
            Some(id) => Ok(id),
            None => Err(single(ErrorKind::InternalFailure, internal_text())),
        },
        Err(e) => Err(storage_outward(e)),
    }
}

/// Reads the report of changing a stored customer.
pub fn update(update_cliente: &UpdateCliente, updated: Result<usize, StorageError>) -> (answer:
    Result<Uuid, ApiError>)
    ensures
        match updated_id(*update_cliente, updated) {
            Ok(id) => answer is Ok && answer->Ok_0@ == id,
            Err(e) => answer is Err && answer->Err_0@ == e,
        },
{
    match updated {
        Ok(_) => match Uuid::parse_str(update_cliente.id.as_str()) {
            Some(id) => Ok(id),
            None => Err(ApiError::internal()),
        },
        Err(e) => Err(normalize_storage(e)),
    }
}

/// What the caller is told of a deletion. Deleting a customer that is not
/// there is no failure.
pub open spec fn deleted_outcome(deleted: Result<usize, StorageError>) -> Result<(), ApiErrorView> {
    match deleted {
        Ok(_) => Ok(()),
        Err(e) => Err(storage_outward(e)),
    }
}

/// Reads the report of deleting a customer.
pub fn delete(deleted: Result<usize, StorageError>) -> (answer: Result<(), ApiError>)
    ensures
        answers(answer, deleted_outcome(deleted)),
{
    match deleted {
        Ok(_) => Ok(()),
        Err(e) => Err(normalize_storage(e)),
    }
}

/// What is answered when a row was stored is what is answered when that
/// row is found again, whatever id it is asked for by.
pub proof fn lemma_created_is_found(row: Cliente, stored: usize, asked: u128)
    ensures
        created(row, Ok(stored)) == found(asked, Ok(row)),
{
}

} // verus!
