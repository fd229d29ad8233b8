//! Requests about customers and the outward form of a customer.

use crate::errors::ApiError;
use crate::ids::{hyphenated, is_version_4, uuid_parse, Uuid};
use crate::models::cliente::{Cliente, NewCliente, UpdateCliente};
use crate::models::clone_text;
use crate::parallel::par_map;
use crate::validate::{
    absent_or_at_least, absent_or_within, conclude, has_length_at_least, is_absent_or_at_least,
    is_absent_or_within, length_at_least, note, noted, verdict,
};
use chrono::NaiveDateTime;
use vstd::prelude::*;

verus! {

/// A customer as shown to callers: without the bookkeeping.
#[derive(Debug, PartialEq)]
pub struct ClienteResponse {
    pub id: Uuid,
    pub nome: String,
    pub sobrenome: String,
    pub cpf: Option<String>,
    pub rg: Option<String>,
    pub data_nascimento: Option<NaiveDateTime>,
    pub sexo: Option<String>,
    pub estado_civil: Option<String>,
    pub telefone: Option<String>,
}

/// A list of customers as shown to callers.
#[derive(Debug, PartialEq)]
pub struct ClientesResponse(pub Vec<ClienteResponse>);

/// The request to create a customer.
#[derive(Clone, Debug)]
pub struct CreateClienteRequest {
    pub nome: String,
    pub sobrenome: String,
    pub cpf: Option<String>,
    pub rg: Option<String>,
    pub sexo: Option<String>,
    pub estado_civil: Option<String>,
    pub telefone: Option<String>,
    pub data_nascimento: Option<NaiveDateTime>,
}

/// The request to change a customer.
#[derive(Clone, Debug)]
pub struct UpdateClienteRequest {
    pub nome: String,
    pub sobrenome: String,
    pub cpf: Option<String>,
    pub rg: Option<String>,
    pub sexo: Option<String>,
    pub estado_civil: Option<String>,
    pub telefone: Option<String>,
    pub data_nascimento: Option<NaiveDateTime>,
}

impl ClienteResponse {
    /// Whether the row can be shown: its id reads as a UUID.
    pub open spec fn complete(cliente: Cliente) -> bool {
        uuid_parse(cliente.id@) is Some
    }

    /// The outward form of a row that can be shown.
    pub open spec fn of(cliente: Cliente) -> ClienteResponse
        recommends
            ClienteResponse::complete(cliente),
    {
        ClienteResponse {
            id: Uuid { value: uuid_parse(cliente.id@).unwrap() },
            nome: cliente.nome,
            sobrenome: cliente.sobrenome,
            cpf: cliente.cpf,
            rg: cliente.rg,
            data_nascimento: cliente.data_nascimento,
            sexo: cliente.sexo,
            estado_civil: cliente.estado_civil,
            telefone: cliente.telefone,
        }
    }

    /// Whether the row can be shown.
    pub fn is_complete(cliente: &Cliente) -> (yes: bool)
        ensures
            yes == ClienteResponse::complete(*cliente),
    {
        Uuid::parse_str(cliente.id.as_str()).is_some()
    }

    /// The outward form of a row.
    pub fn from(cliente: Cliente) -> (response: ClienteResponse)
        requires
            ClienteResponse::complete(cliente),
        ensures
            response == ClienteResponse::of(cliente),
    {
        ClienteResponse {
            id: Uuid::parse_str(cliente.id.as_str()).unwrap(),
            nome: cliente.nome,
            sobrenome: cliente.sobrenome,
            cpf: cliente.cpf,
            rg: cliente.rg,
            data_nascimento: cliente.data_nascimento,
            sexo: cliente.sexo,
            estado_civil: cliente.estado_civil,
            telefone: cliente.telefone,
        }
    }
}

impl ClientesResponse {
    /// Whether every row can be shown.
    pub open spec fn all_complete(clientes: Seq<Cliente>) -> bool {
        forall|i: int|
            0 <= i < clientes.len() ==> ClienteResponse::complete(#[trigger] clientes[i])
    }

    /// The outward forms of the rows, in the rows' order.
    pub open spec fn of(clientes: Seq<Cliente>) -> Seq<ClienteResponse> {
        Seq::new(clientes.len(), |i: int| ClienteResponse::of(clientes[i]))
    }

    /// The outward form of a list of rows. The rows are converted on the
    /// worker threads and keep their order.
    pub fn from(clientes: Vec<Cliente>) -> (response: ClientesResponse)
        requires
            ClientesResponse::all_complete(clientes@),
        ensures
            response.0@ == ClientesResponse::of(clientes@),
    {
        let shown = par_map(clientes, ClienteResponse::from);
        assert(shown@ =~= ClientesResponse::of(clientes@));
        ClientesResponse(shown)
    }
}

impl CreateClienteRequest {
    /// The lines of the checks that the request fails. The two names have
    /// at least three characters. Of the others, each is checked only if it
    /// is there: the CPF has 11 characters, the RG 9, the sex one, the
    /// marital status at least one, the telephone 9 to 11.
    pub open spec fn violations(self) -> Seq<Seq<char>> {
        let l0 = Seq::<Seq<char>>::empty();
        let l1 = noted(
            l0,
            length_at_least(self.nome@, 3),
            "O primeiro nome deve ter pelo menos 3 caracteres"@,
        );
        let l2 = noted(
            l1,
            length_at_least(self.sobrenome@, 3),
            "O sobrenome deve ter pelo menos 3 caracteres"@,
        );
        let l3 = noted(l2, absent_or_within(self.cpf, 11, 11), "O cpf deve ter 11 caracteres"@);
        let l4 = noted(l3, absent_or_within(self.rg, 9, 9), "O rg deve ter 9 caracteres"@);
        let l5 = noted(l4, absent_or_within(self.sexo, 1, 1), "O sexo deve ter 1 caracteres"@);
        let l6 = noted(
            l5,
            absent_or_at_least(self.estado_civil, 1),
            "O estado civil deve ter ao menos um caracter"@,
        );
        noted(
            l6,
            absent_or_within(self.telefone, 9, 11),
            "O telefone deve ter de 9 a 11 caracteres"@,
        )
    }

    /// Checks the request.
    pub fn validate(&self) -> (outcome: Result<(), ApiError>)
        ensures
            match verdict(self.violations()) {
                None => outcome is Ok,
                Some(e) => outcome is Err && outcome->Err_0@ == e,
            },
    {
        let mut lines: Vec<String> = Vec::new();
        assert(lines.deep_view() =~= Seq::<Seq<char>>::empty());
        note(
            &mut lines,
            has_length_at_least(self.nome.as_str(), 3),
            "O primeiro nome deve ter pelo menos 3 caracteres",
        );
        note(
            &mut lines,
            has_length_at_least(self.sobrenome.as_str(), 3),
            "O sobrenome deve ter pelo menos 3 caracteres",
        );
        note(&mut lines, is_absent_or_within(&self.cpf, 11, 11), "O cpf deve ter 11 caracteres");
        note(&mut lines, is_absent_or_within(&self.rg, 9, 9), "O rg deve ter 9 caracteres");
        note(&mut lines, is_absent_or_within(&self.sexo, 1, 1), "O sexo deve ter 1 caracteres");
        note(
            &mut lines,
            is_absent_or_at_least(&self.estado_civil, 1),
            "O estado civil deve ter ao menos um caracter",
        );
        note(
            &mut lines,
            is_absent_or_within(&self.telefone, 9, 11),
            "O telefone deve ter de 9 a 11 caracteres",
        );
        conclude(lines)
    }

    /// Whether `new` is the new customer that this request asks for under
    /// the id: the id's canonical text as the id and as who made and
    /// changed it, and the request's fields.
    pub open spec fn asks_for(self, id: u128, new: NewCliente) -> bool {
        &&& new.id@ == hyphenated(id)
        &&& uuid_parse(new.id@) == Some(id)
        &&& new.nome == self.nome
        &&& new.sobrenome == self.sobrenome
        &&& new.cpf == self.cpf
        &&& new.rg == self.rg
        &&& new.data_nascimento == self.data_nascimento
        &&& new.sexo == self.sexo
        &&& new.estado_civil == self.estado_civil
        &&& new.telefone == self.telefone
        &&& new.created_by@ == hyphenated(id)
        &&& new.updated_by@ == hyphenated(id)
    }
}

impl UpdateClienteRequest {
    /// The lines of the checks that the request fails: the same checks as
    /// for a new customer.
    pub open spec fn violations(self) -> Seq<Seq<char>> {
        let l0 = Seq::<Seq<char>>::empty();
        let l1 = noted(
            l0,
            length_at_least(self.nome@, 3),
            "O primeiro nome deve ter pelo menos 3 caracteres"@,
        );
        let l2 = noted(
            l1,
            length_at_least(self.sobrenome@, 3),
            "O sobrenome deve ter pelo menos 3 caracteres"@,
        );
        let l3 = noted(l2, absent_or_within(self.cpf, 11, 11), "O cpf deve ter 11 caracteres"@);
        let l4 = noted(l3, absent_or_within(self.rg, 9, 9), "O rg deve ter 9 caracteres"@);
        let l5 = noted(l4, absent_or_within(self.sexo, 1, 1), "O sexo deve ter 1 caracteres"@);
        let l6 = noted(
            l5,
            absent_or_at_least(self.estado_civil, 1),
            "O estado civil deve ter no minimo 1 caracter"@,
        );
        noted(
            l6,
            absent_or_within(self.telefone, 9, 11),
            "O telefone deve ter de 9 a 11 caracteres"@,
        )
    }

    /// Checks the request.
    pub fn validate(&self) -> (outcome: Result<(), ApiError>)
        ensures
            match verdict(self.violations()) {
                None => outcome is Ok,
                Some(e) => outcome is Err && outcome->Err_0@ == e,
            },
    {
        let mut lines: Vec<String> = Vec::new();
        assert(lines.deep_view() =~= Seq::<Seq<char>>::empty());
        note(
            &mut lines,
            has_length_at_least(self.nome.as_str(), 3),
            "O primeiro nome deve ter pelo menos 3 caracteres",
        );
        note(
            &mut lines,
            has_length_at_least(self.sobrenome.as_str(), 3),
            "O sobrenome deve ter pelo menos 3 caracteres",
        );
        note(&mut lines, is_absent_or_within(&self.cpf, 11, 11), "O cpf deve ter 11 caracteres");
        note(&mut lines, is_absent_or_within(&self.rg, 9, 9), "O rg deve ter 9 caracteres");
        note(&mut lines, is_absent_or_within(&self.sexo, 1, 1), "O sexo deve ter 1 caracteres");
        note(
            &mut lines,
            is_absent_or_at_least(&self.estado_civil, 1),
            "O estado civil deve ter no minimo 1 caracter",
        );
        note(
            &mut lines,
            is_absent_or_within(&self.telefone, 9, 11),
            "O telefone deve ter de 9 a 11 caracteres",
        );
        conclude(lines)
    }

    /// Whether `update` holds the new values that this request asks for
    /// for the customer with the id: the request's fields, and the id's
    /// canonical text as the id and as who changed it.
    pub open spec fn asks_for(self, id: u128, update: UpdateCliente) -> bool {
        &&& update.id@ == hyphenated(id)
        &&& uuid_parse(update.id@) == Some(id)
        &&& update.nome == self.nome
        &&& update.sobrenome == self.sobrenome
        &&& update.cpf == self.cpf
        &&& update.rg == self.rg
        &&& update.data_nascimento == self.data_nascimento
        &&& update.sexo == self.sexo
        &&& update.estado_civil == self.estado_civil
        &&& update.telefone == self.telefone
        &&& update.updated_by@ == hyphenated(id)
    }
}

/// The new customer that a request asks for, under the given id.
pub fn new_cliente(params: &CreateClienteRequest, cliente_id: &Uuid) -> (new: NewCliente)
    ensures
        params.asks_for(cliente_id@, new),
{
    NewCliente {
        id: cliente_id.to_string(),
        nome: params.nome.clone(),
        sobrenome: params.sobrenome.clone(),
        cpf: clone_text(&params.cpf),
        rg: clone_text(&params.rg),
        data_nascimento: params.data_nascimento,
        sexo: clone_text(&params.sexo),
        estado_civil: clone_text(&params.estado_civil),
        telefone: clone_text(&params.telefone),
        created_by: cliente_id.to_string(),
        updated_by: cliente_id.to_string(),
    }
}

/// Decides a request to create a customer.
///
/// A request that fails a check is refused with the lines of the failed
/// checks, and nothing else happens. For a valid request a fresh random id
/// is drawn, and the answer is the row to store: the request's fields
/// under that id.
pub fn create_cliente(params: &CreateClienteRequest) -> (answer: Result<Cliente, ApiError>)
    ensures
        match verdict(params.violations()) {
            Some(e) => answer is Err && answer->Err_0@ == e,
            None => answer matches Ok(row) && uuid_parse(row.id@) matches Some(id) && is_version_4(
                id,
            ) && exists|new: NewCliente| #[trigger] params.asks_for(id, new) && row.is_row_of(new),
        },
{
    match params.validate() {
        Err(e) => Err(e),
        Ok(_) => {
            let cliente_id = Uuid::new_v4();
            let new = new_cliente(params, &cliente_id);
            let row = Cliente::from(new);
            assert(params.asks_for(cliente_id@, new) && row.is_row_of(new));
            Ok(row)
        },
    }
}

/// Decides a request to change the customer with the given id.
///
/// A request that fails a check is refused with the lines of the failed
/// checks. For a valid request the answer holds the new values to store.
pub fn update_cliente(cliente_id: &Uuid, params: &UpdateClienteRequest) -> (answer: Result<
    UpdateCliente,
    ApiError,
>)
    ensures
        match verdict(params.violations()) {
            Some(e) => answer is Err && answer->Err_0@ == e,
            None => answer matches Ok(update) && params.asks_for(cliente_id@, update),
        },
{
    match params.validate() {
        Err(e) => Err(e),
        Ok(_) => Ok(
            UpdateCliente {
                id: cliente_id.to_string(),
                nome: params.nome.clone(),
                sobrenome: params.sobrenome.clone(),
                cpf: clone_text(&params.cpf),
                rg: clone_text(&params.rg),
                data_nascimento: params.data_nascimento,
                sexo: clone_text(&params.sexo),
                estado_civil: clone_text(&params.estado_civil),
                telefone: clone_text(&params.telefone),
                updated_by: cliente_id.to_string(),
            },
        ),
    }
}

} // verus!
