//! Requests about quotes and the outward form of a quote.

use crate::errors::ApiError;
use crate::ids::{hyphenated, is_version_4, uuid_parse, Uuid};
use crate::models::orcamento::{NewOrcamento, Orcamento};
use crate::models::orcamento_produto::OrcamentoProduto;
use crate::parallel::par_map;
use vstd::prelude::*;

verus! {

/// A quote as shown to callers.
#[derive(Debug, PartialEq)]
pub struct OrcamentoResponse {
    pub id: Uuid,
    /// Always one.
    pub quantidade: i32,
}

/// A list of quotes as shown to callers.
#[derive(Debug, PartialEq)]
pub struct OrcamentosResponse(pub Vec<OrcamentoResponse>);

/// The request to create a quote.
#[derive(Clone, Debug)]
pub struct CreateOrcamentoRequest {
    /// The lines of the quote. They are not looked at when the quote's own
    /// row is made.
    pub produtos: Vec<OrcamentoProduto>,
}

impl OrcamentoResponse {
    /// Whether the row can be shown: its id reads as a UUID.
    pub open spec fn complete(orcamento: Orcamento) -> bool {
        uuid_parse(orcamento.id@) is Some
    }

    /// The outward form of a row that can be shown.
    pub open spec fn of(orcamento: Orcamento) -> OrcamentoResponse
        recommends
            OrcamentoResponse::complete(orcamento),
    {
        OrcamentoResponse { id: Uuid { value: uuid_parse(orcamento.id@).unwrap() }, quantidade: 1 }
    }

    /// Whether the row can be shown.
    pub fn is_complete(orcamento: &Orcamento) -> (yes: bool)
        ensures
            yes == OrcamentoResponse::complete(*orcamento),
    {
        Uuid::parse_str(orcamento.id.as_str()).is_some()
    }

    /// The outward form of a row.
    pub fn from(orcamento: Orcamento) -> (response: OrcamentoResponse)
        requires
            OrcamentoResponse::complete(orcamento),
        ensures
            response == OrcamentoResponse::of(orcamento),
    {
        OrcamentoResponse {
            id: Uuid::parse_str(orcamento.id.as_str()).unwrap(),
            quantidade: 1i32,
        }
    }
}

impl OrcamentosResponse {
    /// Whether every row can be shown.
    pub open spec fn all_complete(orcamentos: Seq<Orcamento>) -> bool {
        forall|i: int|
            0 <= i < orcamentos.len() ==> OrcamentoResponse::complete(#[trigger] orcamentos[i])
    }

    /// The outward forms of the rows, in the rows' order.
    pub open spec fn of(orcamentos: Seq<Orcamento>) -> Seq<OrcamentoResponse> {
        Seq::new(orcamentos.len(), |i: int| OrcamentoResponse::of(orcamentos[i]))
    }

    /// The outward form of a list of rows. The rows are converted on the
    /// worker threads and keep their order.
    pub fn from(orcamentos: Vec<Orcamento>) -> (response: OrcamentosResponse)
        requires
            OrcamentosResponse::all_complete(orcamentos@),
        ensures
            response.0@ == OrcamentosResponse::of(orcamentos@),
    {
        let shown = par_map(orcamentos, OrcamentoResponse::from);
        assert(shown@ =~= OrcamentosResponse::of(orcamentos@));
        OrcamentosResponse(shown)
    }
}

impl CreateOrcamentoRequest {
    /// Checks the request. No check is made of a quote, so every request
    /// passes.
    pub fn validate(&self) -> (outcome: Result<(), ApiError>)
        ensures
            outcome is Ok,
    {
        Ok(())
    }
}

/// Whether `new` is the new quote under the id: the id's canonical text as
/// the id and as who made it.
pub open spec fn is_quote_under(id: u128, new: NewOrcamento) -> bool {
    &&& new.id@ == hyphenated(id)
    &&& uuid_parse(new.id@) == Some(id)
    &&& new.created_by@ == hyphenated(id)
}

/// The new quote under the given id.
pub fn new_orcamento(orcamento_id: &Uuid) -> (new: NewOrcamento)
    ensures
        is_quote_under(orcamento_id@, new),
{
    NewOrcamento { id: orcamento_id.to_string(), created_by: orcamento_id.to_string() }
}

/// Decides a request to create a quote: a fresh random id is drawn, and
/// the answer is the row to store under that id. No request is refused.
pub fn create_orcamento(params: &CreateOrcamentoRequest) -> (answer: Result<Orcamento, ApiError>)
    ensures
        answer matches Ok(row) && uuid_parse(row.id@) matches Some(id) && is_version_4(id)
            && exists|new: NewOrcamento| #[trigger] is_quote_under(id, new) && row.is_row_of(new),
{
    match params.validate() {
        Err(e) => Err(e),
        Ok(_) => {
            let orcamento_id = Uuid::new_v4();
            let new = new_orcamento(&orcamento_id);
            let row = Orcamento::from(new);
            assert(is_quote_under(orcamento_id@, new) && row.is_row_of(new));
            assert(exists|n: NewOrcamento| #[trigger]
                is_quote_under(orcamento_id@, n) && row.is_row_of(n));
            Ok(row)
        },
    }
}

} // verus!
