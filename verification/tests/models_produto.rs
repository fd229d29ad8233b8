use orcamento_api::database::{PoolError, StorageError};
use orcamento_api::errors::ApiError;
use orcamento_api::handlers::produto::{ProdutoResponse, ProdutosResponse};
use orcamento_api::ids::Uuid;
use orcamento_api::models::produto::{
    create, delete, find, get_all, update, NewProduto, Produto, UpdateProduto,
};

/// The products table, kept in memory.
struct Table {
    rows: Vec<Produto>,
}

fn new_produto() -> NewProduto {
    let produto_id = Uuid::new_v4();
    NewProduto {
        id: produto_id.to_string(),
        descricao: "coca cola espumante".to_string(),
        codigo_de_barras: Some("124523324123565421435".to_string()),
        icms: Some("18".to_string()),
        unidade_medida: Some("01".to_string()),
        preco_venda: Some(7.99f64.to_bits()),
        preco_minimo: Some(6f64.to_bits()),
        custo_medio: Some(5f64.to_bits()),
        pis: Some("00".to_string()),
        cofins: Some("00".to_string()),
        ncm: Some("00".to_string()),
        cest: Some("00".to_string()),
        cod_ipi: Some("00".to_string()),
        porcentagem_ipi: Some(0f64.to_bits()),
        created_by: produto_id.to_string(),
        updated_by: produto_id.to_string(),
    }
}

fn get_pool() -> Table {
    Table { rows: vec![Produto::from(new_produto())] }
}

fn fetch(table: &Table, id: Uuid) -> Result<Produto, StorageError> {
    let text = id.to_string();
    table.rows.iter().find(|row| row.id == text).cloned().ok_or(StorageError::NotFound)
}

fn insert(table: &mut Table, row: &Produto) -> Result<usize, StorageError> {
    table.rows.push(row.clone());
    Ok(1)
}

fn change(table: &mut Table, update: &UpdateProduto) -> Result<usize, StorageError> {
    let mut changed = 0;
    for row in table.rows.iter_mut().filter(|row| row.id == update.id) {
        row.descricao = update.descricao.clone();
        row.codigo_de_barras = update.codigo_de_barras.clone();
        row.icms = update.icms.clone();
        row.unidade_medida = update.unidade_medida.clone();
        row.preco_venda = update.preco_venda;
        row.preco_minimo = update.preco_minimo;
        row.custo_medio = update.custo_medio;
        row.pis = update.pis.clone();
        row.cofins = update.cofins.clone();
        row.ncm = update.ncm.clone();
        row.cest = update.cest.clone();
        row.cod_ipi = update.cod_ipi.clone();
        row.porcentagem_ipi = update.porcentagem_ipi;
        row.updated_by = update.updated_by.clone();
        changed += 1;
    }
    Ok(changed)
}

fn remove(table: &mut Table, id: Uuid) -> Result<usize, StorageError> {
    let text = id.to_string();
    let before = table.rows.len();
    table.rows.retain(|row| row.id != text);
    Ok(before - table.rows.len())
}

fn get_all_produto(table: &Table) -> Result<ProdutosResponse, ApiError> {
    get_all(Ok(table.rows.clone()))
}

fn find_in(table: &Table, id: Uuid) -> Result<ProdutoResponse, ApiError> {
    find(id, fetch(table, id))
}

fn create_produto(table: &mut Table) -> Result<ProdutoResponse, ApiError> {
    let produto: Produto = Produto::from(new_produto());
    let inserted = insert(table, &produto);
    create(&produto, inserted)
}

fn update_in(table: &mut Table, update_produto: &UpdateProduto) -> Result<ProdutoResponse, ApiError> {
    let changed = change(table, update_produto);
    let id = update(update_produto, changed)?;
    find_in(table, id)
}

fn delete_in(table: &mut Table, id: Uuid) -> Result<(), ApiError> {
    delete(remove(table, id))
}

fn update_of(id: Uuid, updated_by: Uuid) -> UpdateProduto {
    UpdateProduto {
        id: id.to_string(),
        descricao: "coca cola espumante".to_string(),
        codigo_de_barras: Some("124523324123565421435".to_string()),
        icms: Some("18".to_string()),
        unidade_medida: Some("01".to_string()),
        preco_venda: Some(7.99f64.to_bits()),
        preco_minimo: Some(6f64.to_bits()),
        custo_medio: Some(5f64.to_bits()),
        pis: Some("00".to_string()),
        cofins: Some("00".to_string()),
        ncm: Some("00".to_string()),
        cest: Some("00".to_string()),
        cod_ipi: Some("00".to_string()),
        porcentagem_ipi: Some(0f64.to_bits()),
        updated_by: updated_by.to_string(),
    }
}

#[test]
fn produto_it_gets_a_produto() {
    let produto = get_all_produto(&get_pool());
    assert!(produto.is_ok());
}

#[test]
fn produto_test_find() {
    let pool = get_pool();
    let produto = get_all_produto(&pool).unwrap();
    let produto = &produto.0[0];
    let found_produto = find_in(&pool, produto.id).unwrap();
    assert_eq!(produto, &found_produto);
}

#[test]
fn produto_it_doesnt_find_a_produto() {
    let produto_id = Uuid::new_v4();
    let not_found_produto = find_in(&get_pool(), produto_id);
    assert!(not_found_produto.is_err());
    assert_eq!(
        not_found_produto.unwrap_err(),
        ApiError::NotFound(format!("Produto {} not found", produto_id.to_string()))
    );
}

#[test]
fn produto_it_creates_a_produto() {
    let mut pool = get_pool();
    let created = create_produto(&mut pool);
    assert!(created.is_ok());
    let unwrapped = created.unwrap();
    let found_produto = find_in(&pool, unwrapped.id.clone()).unwrap();
    let produto_id = unwrapped.id;
    delete_in(&mut pool, produto_id).unwrap();
    assert_eq!(unwrapped, found_produto);
}

#[test]
fn produto_it_updates_a_produto() {
    let mut pool = get_pool();
    let created = create_produto(&mut pool).unwrap();
    let update_produto = update_of(created.id, created.id);
    let updated = update_in(&mut pool, &update_produto);
    assert!(updated.is_ok());
    let found_produto = find_in(&pool, created.id).unwrap();
    assert_eq!(updated.unwrap(), found_produto);
    delete_in(&mut pool, created.id).unwrap();
}

#[test]
fn it_fails_to_update_a_nonexistent_produto() {
    let produto_id = Uuid::new_v4();
    let update_produto = update_of(produto_id, produto_id);
    let updated = update_in(&mut get_pool(), &update_produto);
    assert!(updated.is_err());
}

#[test]
fn produto_it_deletes_a_produto() {
    let mut pool = get_pool();
    let created = create_produto(&mut pool);
    let produto_id = created.unwrap().id;
    let produto = find_in(&pool, produto_id);
    assert!(produto.is_ok());
    delete_in(&mut pool, produto_id).unwrap();
    let produto = find_in(&pool, produto_id);
    assert!(produto.is_err());
}

#[test]
fn it_gets_all_produtos() {
    let mut pool = get_pool();
    create_produto(&mut pool).unwrap();
    let produtos = get_all_produto(&pool).unwrap();
    assert_eq!(produtos.0.len(), 2);
    assert_eq!(produtos.0[0].id.to_string(), pool.rows[0].id);
    assert_eq!(produtos.0[1].id.to_string(), pool.rows[1].id);
}

#[test]
fn a_produto_keeps_the_bits_of_its_numbers() {
    let new = new_produto();
    let row = Produto::from(new.clone());
    assert_eq!(row.duplicate(), row);
    let shown = create(&row, Ok(1)).unwrap();
    assert_eq!(shown.id.to_string(), new.id);
    assert_eq!(shown.descricao, "coca cola espumante");
    assert_eq!(shown.preco_venda.map(f64::from_bits), Some(7.99));
    assert_eq!(shown.preco_minimo.map(f64::from_bits), Some(6.0));
    assert_eq!(shown.custo_medio.map(f64::from_bits), Some(5.0));
    assert_eq!(shown.porcentagem_ipi.map(f64::from_bits), Some(0.0));
    assert_eq!(shown.codigo_de_barras, Some("124523324123565421435".to_string()));
}

#[test]
fn produto_failures_are_answered_by_their_outward_form() {
    let mut row = Produto::from(new_produto());
    let exhausted = StorageError::Pool(PoolError::Exhausted);
    assert_eq!(get_all(Err(exhausted)), Err(ApiError::exhausted()));
    assert_eq!(find(Uuid::nil(), Err(StorageError::Backend)), Err(ApiError::internal()));
    assert_eq!(create(&row, Err(exhausted)), Err(ApiError::exhausted()));
    assert_eq!(
        update(&update_of(Uuid::nil(), Uuid::nil()), Err(StorageError::Backend)),
        Err(ApiError::internal())
    );
    assert_eq!(delete(Err(exhausted)), Err(ApiError::exhausted()));
    row.id = "no uuid".to_string();
    assert_eq!(find(Uuid::nil(), Ok(row.clone())), Err(ApiError::internal()));
    assert_eq!(get_all(Ok(vec![row])), Err(ApiError::internal()));
}
