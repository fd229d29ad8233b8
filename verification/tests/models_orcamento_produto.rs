use orcamento_api::database::{PoolError, StorageError};
use orcamento_api::errors::ApiError;
use orcamento_api::handlers::orcamento_produto::{
    OrcamentoProdutoResponse, OrcamentoProdutosResponse,
};
use orcamento_api::ids::Uuid;
use orcamento_api::models::orcamento_produto::{
    create, delete, find, NewOrcamentoProduto, OrcamentoProduto,
};

/// The table of the lines of quotes, kept in memory.
struct Table {
    rows: Vec<OrcamentoProduto>,
}

fn new_orcamento_produto() -> NewOrcamentoProduto {
    let orcamento_produto_id = Uuid::new_v4();
    NewOrcamentoProduto {
        id: orcamento_produto_id.to_string(),
        id_produto: "00000000-0000-0000-0000-000000000000".to_string(),
        id_orcamento: "00000000-0000-0000-0000-000000000000".to_string(),
        quantidade: 1,
        created_by: orcamento_produto_id.to_string(),
    }
}

fn get_pool() -> Table {
    Table { rows: vec![] }
}

fn fetch(table: &Table, id: Uuid) -> Result<OrcamentoProduto, StorageError> {
    let text = id.to_string();
    table.rows.iter().find(|row| row.id == text).cloned().ok_or(StorageError::NotFound)
}

fn insert(table: &mut Table, row: &OrcamentoProduto) -> Result<usize, StorageError> {
    table.rows.push(row.clone());
    Ok(1)
}

fn remove(table: &mut Table, id: Uuid) -> Result<usize, StorageError> {
    let text = id.to_string();
    let before = table.rows.len();
    table.rows.retain(|row| row.id != text);
    Ok(before - table.rows.len())
}

fn find_in(table: &Table, id: Uuid) -> Result<OrcamentoProdutoResponse, ApiError> {
    find(id, fetch(table, id))
}

fn create_orcamento_produto(table: &mut Table) -> Result<OrcamentoProdutoResponse, ApiError> {
    let orcamento_produto: OrcamentoProduto = OrcamentoProduto::from(new_orcamento_produto());
    let inserted = insert(table, &orcamento_produto);
    create(&orcamento_produto, inserted)
}

fn delete_in(table: &mut Table, id: Uuid) -> Result<(), ApiError> {
    delete(remove(table, id))
}

#[test]
fn orcamento_produto_it_doesnt_find_a_orcamento_produto() {
    let orcamento_produto_id = Uuid::new_v4();
    let not_found_orcamento_produto = find_in(&get_pool(), orcamento_produto_id);
    assert!(not_found_orcamento_produto.is_err());
    assert_eq!(
        not_found_orcamento_produto.unwrap_err(),
        ApiError::NotFound(format!(
            "OrcamentoProduto {} not found",
            orcamento_produto_id.to_string()
        ))
    );
}

#[test]
fn orcamento_produto_it_creates_a_orcamento_produto() {
    let mut pool = get_pool();
    let created = create_orcamento_produto(&mut pool);
    assert!(created.is_ok());
    let unwrapped = created.unwrap();
    let found_orcamento_produto = find_in(&pool, unwrapped.id.clone()).unwrap();
    let orcamento_produto_id = unwrapped.id;
    delete_in(&mut pool, orcamento_produto_id).unwrap();
    assert_eq!(unwrapped, found_orcamento_produto);
}

#[test]
fn orcamento_produto_it_deletes_a_orcamento_produto() {
    let mut pool = get_pool();
    let created = create_orcamento_produto(&mut pool);
    let orcamento_produto_id = created.unwrap().id;
    let orcamento_produto = find_in(&pool, orcamento_produto_id);
    assert!(orcamento_produto.is_ok());
    delete_in(&mut pool, orcamento_produto_id).unwrap();
    let orcamento_produto = find_in(&pool, orcamento_produto_id);
    assert!(orcamento_produto.is_err());
}

#[test]
fn it_gets_a_orcamento_produto() {
    let mut pool = get_pool();
    let created = create_orcamento_produto(&mut pool).unwrap();
    let found = find_in(&pool, created.id).unwrap();
    assert_eq!(found.id_produto, Uuid::nil());
    assert_eq!(found.id_orcamento, Uuid::nil());
    assert_eq!(found.quantidade, 1);
}

#[test]
fn a_line_is_shown_with_the_quantity_it_holds() {
    let mut new = new_orcamento_produto();
    new.quantidade = 12;
    let row = OrcamentoProduto::from(new.clone());
    assert_eq!(row.quantidade, 12);
    assert_eq!(row.duplicate(), row);
    let shown = create(&row, Ok(1)).unwrap();
    assert_eq!(shown.id.to_string(), new.id);
    assert_eq!(shown.quantidade, 12);
    for q in [i32::MIN, -1, 0, 1, i32::MAX] {
        let mut new = new_orcamento_produto();
        new.quantidade = q;
        new.id_produto = "936da01f-9abd-4d9d-80c7-02af85c822a8".to_string();
        new.id_orcamento = "00000000-0000-0000-0000-000000000001".to_string();
        let row = OrcamentoProduto::from(new.clone());
        let shown = OrcamentoProdutoResponse::from(row);
        assert_eq!(shown.quantidade, q);
        assert_eq!(shown.id.to_string(), new.id);
        assert_eq!(shown.id_produto.to_string(), new.id_produto);
        assert_eq!(shown.id_orcamento.to_string(), new.id_orcamento);
    }
}

#[test]
fn lines_are_shown_in_their_order_or_not_at_all() {
    let a = OrcamentoProduto::from(new_orcamento_produto());
    let b = OrcamentoProduto::from(new_orcamento_produto());
    let shown = OrcamentoProdutosResponse::try_from(vec![a.clone(), b.clone()]).unwrap();
    assert_eq!(shown.0.len(), 2);
    assert_eq!(shown.0[0].id.to_string(), a.id);
    assert_eq!(shown.0[1].id.to_string(), b.id);
    let mut bad = a.clone();
    bad.id_produto = "x".to_string();
    assert_eq!(OrcamentoProdutosResponse::try_from(vec![a, bad, b]), None);
    assert_eq!(
        OrcamentoProdutosResponse::try_from(vec![]),
        Some(OrcamentoProdutosResponse(vec![]))
    );
}

#[test]
fn orcamento_produto_failures_are_answered_by_their_outward_form() {
    let mut row = OrcamentoProduto::from(new_orcamento_produto());
    let exhausted = StorageError::Pool(PoolError::Exhausted);
    assert_eq!(find(Uuid::nil(), Err(StorageError::Backend)), Err(ApiError::internal()));
    assert_eq!(find(Uuid::nil(), Err(exhausted)), Err(ApiError::exhausted()));
    assert_eq!(create(&row, Err(exhausted)), Err(ApiError::exhausted()));
    assert_eq!(delete(Err(exhausted)), Err(ApiError::exhausted()));
    assert_eq!(delete(Ok(3)), Ok(()));
    row.id_orcamento = "no uuid".to_string();
    assert_eq!(find(Uuid::nil(), Ok(row.clone())), Err(ApiError::internal()));
    assert_eq!(create(&row, Ok(1)), Err(ApiError::internal()));
}
