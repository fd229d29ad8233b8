//! Requests about lines of quotes and the outward form of a line.

use crate::errors::ApiError;
use crate::ids::{hyphenated, is_version_4, uuid_parse, Uuid};
use crate::models::orcamento_produto::{NewOrcamentoProduto, OrcamentoProduto};
use crate::parallel::par_map;
use vstd::prelude::*;

verus! {

/// A line of a quote as shown to callers.
#[derive(Debug, PartialEq)]
pub struct OrcamentoProdutoResponse {
    pub id: Uuid,
    pub id_produto: Uuid,
    pub id_orcamento: Uuid,
    pub quantidade: i32,
}

/// A list of lines as shown to callers.
#[derive(Debug, PartialEq)]
pub struct OrcamentoProdutosResponse(pub Vec<OrcamentoProdutoResponse>);

/// The request to add a line to a quote.
#[derive(Clone, Copy, Debug)]
pub struct CreateOrcamentoProdutoRequest {
    pub id_produto: Uuid,
    pub id_orcamento: Uuid,
    pub quantidade: i32,
}

impl OrcamentoProdutoResponse {
    /// Whether the row can be shown: its three ids read as UUIDs.
    pub open spec fn complete(orcamento_produto: OrcamentoProduto) -> bool {
        &&& uuid_parse(orcamento_produto.id@) is Some
        &&& uuid_parse(orcamento_produto.id_produto@) is Some
        &&& uuid_parse(orcamento_produto.id_orcamento@) is Some
    }

    /// The outward form of a row that can be shown: its three ids, each
    /// in its own field, and its quantity.
    pub open spec fn of(orcamento_produto: OrcamentoProduto) -> OrcamentoProdutoResponse
        recommends
            OrcamentoProdutoResponse::complete(orcamento_produto),
    {
        OrcamentoProdutoResponse {
            id: Uuid { value: uuid_parse(orcamento_produto.id@).unwrap() },
            id_produto: Uuid { value: uuid_parse(orcamento_produto.id_produto@).unwrap() },
            id_orcamento: Uuid { value: uuid_parse(orcamento_produto.id_orcamento@).unwrap() },
            quantidade: orcamento_produto.quantidade,
        }
    }

    /// Whether the row can be shown.
    pub fn is_complete(orcamento_produto: &OrcamentoProduto) -> (yes: bool)
        ensures
            yes == OrcamentoProdutoResponse::complete(*orcamento_produto),
    {
        Uuid::parse_str(orcamento_produto.id.as_str()).is_some() && Uuid::parse_str(
            orcamento_produto.id_produto.as_str(),
        ).is_some() && Uuid::parse_str(orcamento_produto.id_orcamento.as_str()).is_some()
    }

    /// The outward form of a row.
    pub fn from(orcamento_produto: OrcamentoProduto) -> (response: OrcamentoProdutoResponse)
        requires
            OrcamentoProdutoResponse::complete(orcamento_produto),
        ensures
            response == OrcamentoProdutoResponse::of(orcamento_produto),
    {
        OrcamentoProdutoResponse {
            id: Uuid::parse_str(orcamento_produto.id.as_str()).unwrap(),
            id_produto: Uuid::parse_str(orcamento_produto.id_produto.as_str()).unwrap(),
            id_orcamento: Uuid::parse_str(orcamento_produto.id_orcamento.as_str()).unwrap(),
            quantidade: orcamento_produto.quantidade,
        }
    }
}

impl OrcamentoProdutosResponse {
    /// Whether every row can be shown.
    pub open spec fn all_complete(orcamento_produtos: Seq<OrcamentoProduto>) -> bool {
        forall|i: int|
            0 <= i < orcamento_produtos.len() ==> OrcamentoProdutoResponse::complete(
                #[trigger] orcamento_produtos[i],
            )
    }

    /// The outward forms of the rows, in the rows' order.
    pub open spec fn of(orcamento_produtos: Seq<OrcamentoProduto>) -> Seq<
        OrcamentoProdutoResponse,
    > {
        Seq::new(
            orcamento_produtos.len(),
            |i: int| OrcamentoProdutoResponse::of(orcamento_produtos[i]),
        )
    }

    /// The outward form of a list of rows. The rows are converted on the
    /// worker threads and keep their order.
    pub fn from(orcamento_produtos: Vec<OrcamentoProduto>) -> (response:
        OrcamentoProdutosResponse)
        requires
            OrcamentoProdutosResponse::all_complete(orcamento_produtos@),
        ensures
            response.0@ == OrcamentoProdutosResponse::of(orcamento_produtos@),
    {
        let shown = par_map(orcamento_produtos, OrcamentoProdutoResponse::from);
        assert(shown@ =~= OrcamentoProdutosResponse::of(orcamento_produtos@));
        OrcamentoProdutosResponse(shown)
    }

    /// The outward form of a list of rows, if every one of them can be
    /// shown.
    pub fn try_from(orcamento_produtos: Vec<OrcamentoProduto>) -> (response: Option<
        OrcamentoProdutosResponse,
    >)
        ensures
            response is Some <==> OrcamentoProdutosResponse::all_complete(orcamento_produtos@),
            response is Some ==> response.unwrap().0@ == OrcamentoProdutosResponse::of(
                orcamento_produtos@,
            ),
    {
        let mut i: usize = 0;
        while i < orcamento_produtos.len()
            invariant
                i <= orcamento_produtos@.len(),
                forall|k: int|
                    0 <= k < i ==> OrcamentoProdutoResponse::complete(
                        #[trigger] orcamento_produtos@[k],
                    ),
            decreases orcamento_produtos.len() - i,
        {
            if !OrcamentoProdutoResponse::is_complete(&orcamento_produtos[i]) {
                assert(!OrcamentoProdutoResponse::complete(orcamento_produtos@[i as int]));
                return None;
            }
            i += 1;
        }
        Some(OrcamentoProdutosResponse::from(orcamento_produtos))
    }
}

impl CreateOrcamentoProdutoRequest {
    /// Checks the request. No check is made of a line, so every request
    /// passes.
    pub fn validate(&self) -> (outcome: Result<(), ApiError>)
        ensures
            outcome is Ok,
    {
        Ok(())
    }

    /// Whether `new` is the new line that this request asks for under the
    /// id: the id's canonical text as the id and as who made it, the
    /// canonical texts of the product's and the quote's ids, and the
    /// quantity.
    pub open spec fn asks_for(self, id: u128, new: NewOrcamentoProduto) -> bool {
        &&& new.id@ == hyphenated(id)
        &&& uuid_parse(new.id@) == Some(id)
        &&& new.id_produto@ == hyphenated(self.id_produto@)
        &&& uuid_parse(new.id_produto@) == Some(self.id_produto@)
        &&& new.id_orcamento@ == hyphenated(self.id_orcamento@)
        &&& uuid_parse(new.id_orcamento@) == Some(self.id_orcamento@)
        &&& new.quantidade == self.quantidade
        &&& new.created_by@ == hyphenated(id)
    }
}

/// The new line that a request asks for, under the given id.
pub fn new_orcamento_produto(params: &CreateOrcamentoProdutoRequest, orcamento_produto_id: &Uuid)
    -> (new: NewOrcamentoProduto)
    ensures
        params.asks_for(orcamento_produto_id@, new),
{
    NewOrcamentoProduto {
        id: orcamento_produto_id.to_string(),
        id_produto: params.id_produto.to_string(),
        id_orcamento: params.id_orcamento.to_string(),
        quantidade: params.quantidade,
        created_by: orcamento_produto_id.to_string(),
    }
}

/// Decides a request to add a line to a quote: a fresh random id is drawn,
/// and the answer is the row to store, with the request's fields under
/// that id. No request is refused.
pub fn create_orcamento_produto(params: &CreateOrcamentoProdutoRequest) -> (answer: Result<
    OrcamentoProduto,
    ApiError,
>)
    ensures
        answer matches Ok(row) && uuid_parse(row.id@) matches Some(id) && is_version_4(id)
            && exists|new: NewOrcamentoProduto| #[trigger]
            params.asks_for(id, new) && row.is_row_of(new),
{
    match params.validate() {
        Err(e) => Err(e),
        Ok(_) => {
            let orcamento_produto_id = Uuid::new_v4();
            let new = new_orcamento_produto(params, &orcamento_produto_id);
            let row = OrcamentoProduto::from(new);
            assert(params.asks_for(orcamento_produto_id@, new) && row.is_row_of(new));
            Ok(row)
        },
    }
}

} // verus!
