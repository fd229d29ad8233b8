//! Requests about products and the outward form of a product.

use crate::errors::ApiError;
use crate::ids::{hyphenated, is_version_4, uuid_parse, Uuid};
use crate::models::clone_text;
use crate::models::produto::{NewProduto, Produto, UpdateProduto};
use crate::parallel::par_map;
use crate::validate::{absent_or_at_least, conclude, is_absent_or_at_least, note, noted, verdict};
use vstd::prelude::*;

verus! {

/// A product as shown to callers: without the bookkeeping.
#[derive(Debug, PartialEq)]
pub struct ProdutoResponse {
    pub id: Uuid,
    pub descricao: String,
    pub codigo_de_barras: Option<String>,
    pub icms: Option<String>,
    pub unidade_medida: Option<String>,
    pub preco_venda: Option<u64>,
    pub preco_minimo: Option<u64>,
    pub custo_medio: Option<u64>,
    pub pis: Option<String>,
    pub cofins: Option<String>,
    pub ncm: Option<String>,
    pub cest: Option<String>,
    pub cod_ipi: Option<String>,
    pub porcentagem_ipi: Option<u64>,
}

/// A list of products as shown to callers.
#[derive(Debug, PartialEq)]
pub struct ProdutosResponse(pub Vec<ProdutoResponse>);

/// The request to create a product.
#[derive(Clone, Debug)]
pub struct CreateProdutoRequest {
    pub descricao: String,
    pub codigo_de_barras: Option<String>,
    pub icms: Option<String>,
    pub unidade_medida: Option<String>,
    pub preco_venda: Option<u64>,
    pub preco_minimo: Option<u64>,
    pub custo_medio: Option<u64>,
    pub pis: Option<String>,
    pub cofins: Option<String>,
    pub ncm: Option<String>,
    pub cest: Option<String>,
    pub cod_ipi: Option<String>,
    pub porcentagem_ipi: Option<u64>,
}

/// The request to change a product.
#[derive(Clone, Debug)]
pub struct UpdateProdutoRequest {
    pub descricao: String,
    pub codigo_de_barras: Option<String>,
    pub icms: Option<String>,
    pub unidade_medida: Option<String>,
    pub preco_venda: Option<u64>,
    pub preco_minimo: Option<u64>,
    pub custo_medio: Option<u64>,
    pub pis: Option<String>,
    pub cofins: Option<String>,
    pub ncm: Option<String>,
    pub cest: Option<String>,
    pub cod_ipi: Option<String>,
    pub porcentagem_ipi: Option<u64>,
}

impl ProdutoResponse {
    /// Whether the row can be shown: its id reads as a UUID.
    pub open spec fn complete(produto: Produto) -> bool {
        uuid_parse(produto.id@) is Some
    }

    /// The outward form of a row that can be shown.
    pub open spec fn of(produto: Produto) -> ProdutoResponse
        recommends
            ProdutoResponse::complete(produto),
    {
        ProdutoResponse {
            id: Uuid { value: uuid_parse(produto.id@).unwrap() },
            descricao: produto.descricao,
            codigo_de_barras: produto.codigo_de_barras,
            icms: produto.icms,
            unidade_medida: produto.unidade_medida,
            preco_venda: produto.preco_venda,
            preco_minimo: produto.preco_minimo,
            custo_medio: produto.custo_medio,
            pis: produto.pis,
            cofins: produto.cofins,
            ncm: produto.ncm,
            cest: produto.cest,
            cod_ipi: produto.cod_ipi,
            porcentagem_ipi: produto.porcentagem_ipi,
        }
    }

    /// Whether the row can be shown.
    pub fn is_complete(produto: &Produto) -> (yes: bool)
        ensures
            yes == ProdutoResponse::complete(*produto),
    {
        Uuid::parse_str(produto.id.as_str()).is_some()
    }

    /// The outward form of a row.
    pub fn from(produto: Produto) -> (response: ProdutoResponse)
        requires
            ProdutoResponse::complete(produto),
        ensures
            response == ProdutoResponse::of(produto),
    {
        ProdutoResponse {
            id: Uuid::parse_str(produto.id.as_str()).unwrap(),
            descricao: produto.descricao,
            codigo_de_barras: produto.codigo_de_barras,
            icms: produto.icms,
            unidade_medida: produto.unidade_medida,
            preco_venda: produto.preco_venda,
            preco_minimo: produto.preco_minimo,
            custo_medio: produto.custo_medio,
            pis: produto.pis,
            cofins: produto.cofins,
            ncm: produto.ncm,
            cest: produto.cest,
            cod_ipi: produto.cod_ipi,
            porcentagem_ipi: produto.porcentagem_ipi,
        }
    }
}

impl ProdutosResponse {
    /// Whether every row can be shown.
    pub open spec fn all_complete(produtos: Seq<Produto>) -> bool {
        forall|i: int|
            0 <= i < produtos.len() ==> ProdutoResponse::complete(#[trigger] produtos[i])
    }

    /// The outward forms of the rows, in the rows' order.
    pub open spec fn of(produtos: Seq<Produto>) -> Seq<ProdutoResponse> {
        Seq::new(produtos.len(), |i: int| ProdutoResponse::of(produtos[i]))
    }

    /// The outward form of a list of rows. The rows are converted on the
    /// worker threads and keep their order.
    pub fn from(produtos: Vec<Produto>) -> (response: ProdutosResponse)
        requires
            ProdutosResponse::all_complete(produtos@),
        ensures
            response.0@ == ProdutosResponse::of(produtos@),
    {
        let shown = par_map(produtos, ProdutoResponse::from);
        assert(shown@ =~= ProdutosResponse::of(produtos@));
        ProdutosResponse(shown)
    }
}

impl CreateProdutoRequest {
    /// The lines of the checks that the request fails: a bar code, if
    /// there is one, has at least six characters.
    pub open spec fn violations(self) -> Seq<Seq<char>> {
        noted(
            Seq::<Seq<char>>::empty(),
            absent_or_at_least(self.codigo_de_barras, 6),
            "A descrião deve ter pelo menos 6 caracters"@,
        )
    }

    /// Checks the request.
    pub fn validate(&self) -> (outcome: Result<(), ApiError>)
        ensures
            match verdict(self.violations()) {
                None => outcome is Ok,
                Some(e) => outcome is Err && outcome->Err_0@ == e,
            },
    {
        let mut lines: Vec<String> = Vec::new();
        assert(lines.deep_view() =~= Seq::<Seq<char>>::empty());
        note(
            &mut lines,
            is_absent_or_at_least(&self.codigo_de_barras, 6),
            "A descrião deve ter pelo menos 6 caracters",
        );
        conclude(lines)
    }

    /// Whether `new` is the new product that this request asks for under
    /// the id: the id's canonical text as the id and as who made and
    /// changed it, and the request's fields.
    pub open spec fn asks_for(self, id: u128, new: NewProduto) -> bool {
        &&& new.id@ == hyphenated(id)
        &&& uuid_parse(new.id@) == Some(id)
        &&& new.descricao == self.descricao
        &&& new.codigo_de_barras == self.codigo_de_barras
        &&& new.icms == self.icms
        &&& new.unidade_medida == self.unidade_medida
        &&& new.preco_venda == self.preco_venda
        &&& new.preco_minimo == self.preco_minimo
        &&& new.custo_medio == self.custo_medio
        &&& new.pis == self.pis
        &&& new.cofins == self.cofins
        &&& new.ncm == self.ncm
        &&& new.cest == self.cest
        &&& new.cod_ipi == self.cod_ipi
        &&& new.porcentagem_ipi == self.porcentagem_ipi
        &&& new.created_by@ == hyphenated(id)
        &&& new.updated_by@ == hyphenated(id)
    }
}

impl UpdateProdutoRequest {
    /// The lines of the checks that the request fails: a bar code, if
    /// there is one, has at least six characters.
    pub open spec fn violations(self) -> Seq<Seq<char>> {
        noted(
            Seq::<Seq<char>>::empty(),
            absent_or_at_least(self.codigo_de_barras, 6),
            "A descrião deve ter pelo menos 6 caracters"@,
        )
    }

    /// Checks the request.
    pub fn validate(&self) -> (outcome: Result<(), ApiError>)
        ensures
            match verdict(self.violations()) {
                None => outcome is Ok,
                Some(e) => outcome is Err && outcome->Err_0@ == e,
            },
    {
        let mut lines: Vec<String> = Vec::new();
        assert(lines.deep_view() =~= Seq::<Seq<char>>::empty());
        note(
            &mut lines,
            is_absent_or_at_least(&self.codigo_de_barras, 6),
            "A descrião deve ter pelo menos 6 caracters",
        );
        conclude(lines)
    }

    /// Whether `update` holds the new values that this request asks for
    /// for the product with the id: the request's fields, and the id's
    /// canonical text as the id and as who changed it.
    pub open spec fn asks_for(self, id: u128, update: UpdateProduto) -> bool {
        &&& update.id@ == hyphenated(id)
        &&& uuid_parse(update.id@) == Some(id)
        &&& update.descricao == self.descricao
        &&& update.codigo_de_barras == self.codigo_de_barras
        &&& update.icms == self.icms
        &&& update.unidade_medida == self.unidade_medida
        &&& update.preco_venda == self.preco_venda
        &&& update.preco_minimo == self.preco_minimo
        &&& update.custo_medio == self.custo_medio
        &&& update.pis == self.pis
        &&& update.cofins == self.cofins
        &&& update.ncm == self.ncm
        &&& update.cest == self.cest
        &&& update.cod_ipi == self.cod_ipi
        &&& update.porcentagem_ipi == self.porcentagem_ipi
        &&& update.updated_by@ == hyphenated(id)
    }
}

/// The new product that a request asks for, under the given id.
pub fn new_produto(params: &CreateProdutoRequest, produto_id: &Uuid) -> (new: NewProduto)
    ensures
        params.asks_for(produto_id@, new),
{
    NewProduto {
        id: produto_id.to_string(),
        descricao: params.descricao.clone(),
        codigo_de_barras: clone_text(&params.codigo_de_barras),
        icms: clone_text(&params.icms),
        unidade_medida: clone_text(&params.unidade_medida),
        preco_venda: params.preco_venda,
        preco_minimo: params.preco_minimo,
        custo_medio: params.custo_medio,
        pis: clone_text(&params.pis),
        cofins: clone_text(&params.cofins),
        ncm: clone_text(&params.ncm),
        cest: clone_text(&params.cest),
        cod_ipi: clone_text(&params.cod_ipi),
        porcentagem_ipi: params.porcentagem_ipi,
        created_by: produto_id.to_string(),
        updated_by: produto_id.to_string(),
    }
}

/// Decides a request to create a product.
///
/// A request that fails a check is refused with the lines of the failed
/// checks, and nothing else happens. For a valid request a fresh random id
/// is drawn, and the answer is the row to store: the request's fields
/// under that id.
pub fn create_produto(params: &CreateProdutoRequest) -> (answer: Result<Produto, ApiError>)
    ensures
        match verdict(params.violations()) {
            Some(e) => answer is Err && answer->Err_0@ == e,
            None => answer matches Ok(row) && uuid_parse(row.id@) matches Some(id) && is_version_4(
                id,
            ) && exists|new: NewProduto| #[trigger] params.asks_for(id, new) && row.is_row_of(new),
        },
{
    match params.validate() {
        Err(e) => Err(e),
        Ok(_) => {
            let produto_id = Uuid::new_v4();
            let new = new_produto(params, &produto_id);
            let row = Produto::from(new);
            assert(params.asks_for(produto_id@, new) && row.is_row_of(new));
            Ok(row)
        },
    }
}

/// Decides a request to change the product with the given id.
///
/// A request that fails a check is refused with the lines of the failed
/// checks. For a valid request the answer holds the new values to store.
pub fn update_produto(produto_id: &Uuid, params: &UpdateProdutoRequest) -> (answer: Result<
    UpdateProduto,
    ApiError,
>)
    ensures
        match verdict(params.violations()) {
            Some(e) => answer is Err && answer->Err_0@ == e,
            None => answer matches Ok(update) && params.asks_for(produto_id@, update),
        },
{
    match params.validate() {
        Err(e) => Err(e),
        Ok(_) => Ok(
            UpdateProduto {
                id: produto_id.to_string(),
                descricao: params.descricao.clone(),
                codigo_de_barras: clone_text(&params.codigo_de_barras),
                icms: clone_text(&params.icms),
                unidade_medida: clone_text(&params.unidade_medida),
                preco_venda: params.preco_venda,
                preco_minimo: params.preco_minimo,
                custo_medio: params.custo_medio,
                pis: clone_text(&params.pis),
                cofins: clone_text(&params.cofins),
                ncm: clone_text(&params.ncm),
                cest: clone_text(&params.cest),
                cod_ipi: clone_text(&params.cod_ipi),
                porcentagem_ipi: params.porcentagem_ipi,
                updated_by: produto_id.to_string(),
            },
        ),
    }
}

} // verus!
