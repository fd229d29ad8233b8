use chrono::{NaiveDate, NaiveDateTime};
use orcamento_api::database::{PoolError, StorageError};
use orcamento_api::errors::ApiError;
use orcamento_api::handlers::cliente::{ClienteResponse, ClientesResponse};
use orcamento_api::ids::Uuid;
use orcamento_api::models::cliente::{
    create, delete, find, get_all, update, Cliente, NewCliente, UpdateCliente,
};

/// The customers table, kept in memory.
struct Table {
    rows: Vec<Cliente>,
}

fn birthday() -> NaiveDateTime {
    NaiveDate::from_ymd_opt(1990, 1, 1).unwrap().and_hms_milli_opt(0, 0, 0, 0).unwrap()
}

fn new_cliente() -> NewCliente {
    let cliente_id = Uuid::new_v4();
    NewCliente {
        id: cliente_id.to_string(),
        nome: "Model".to_string(),
        sobrenome: "Test".to_string(),
        cpf: Some("12345678901".to_string()),
        rg: Some("123456789".to_string()),
        data_nascimento: Some(birthday()),
        sexo: Some("M".to_string()),
        estado_civil: Some("Solteiro".to_string()),
        telefone: Some("12345678901".to_string()),
        created_by: cliente_id.to_string(),
        updated_by: cliente_id.to_string(),
    }
}

fn get_pool() -> Table {
    Table { rows: vec![Cliente::from(new_cliente())] }
}

fn fetch(table: &Table, id: Uuid) -> Result<Cliente, StorageError> {
    let text = id.to_string();
    table.rows.iter().find(|row| row.id == text).cloned().ok_or(StorageError::NotFound)
}

fn insert(table: &mut Table, row: &Cliente) -> Result<usize, StorageError> {
    table.rows.push(row.clone());
    Ok(1)
}

fn change(table: &mut Table, update: &UpdateCliente) -> Result<usize, StorageError> {
    let mut changed = 0;
    for row in table.rows.iter_mut().filter(|row| row.id == update.id) {
        row.nome = update.nome.clone();
        row.sobrenome = update.sobrenome.clone();
        row.cpf = update.cpf.clone();
        row.rg = update.rg.clone();
        row.data_nascimento = update.data_nascimento;
        row.sexo = update.sexo.clone();
        row.estado_civil = update.estado_civil.clone();
        row.telefone = update.telefone.clone();
        row.updated_by = update.updated_by.clone();
        changed += 1;
    }
    Ok(changed)
}

fn remove(table: &mut Table, id: Uuid) -> Result<usize, StorageError> {
    let text = id.to_string();
    let before = table.rows.len();
    table.rows.retain(|row| row.id != text);
    Ok(before - table.rows.len())
}

fn get_all_clientes(table: &Table) -> Result<ClientesResponse, ApiError> {
    get_all(Ok(table.rows.clone()))
}

fn find_in(table: &Table, id: Uuid) -> Result<ClienteResponse, ApiError> {
    find(id, fetch(table, id))
}

fn create_cliente(table: &mut Table) -> Result<ClienteResponse, ApiError> {
    let cliente: Cliente = Cliente::from(new_cliente());
    let inserted = insert(table, &cliente);
    create(&cliente, inserted)
}

fn update_in(table: &mut Table, update_cliente: &UpdateCliente) -> Result<ClienteResponse, ApiError> {
    let changed = change(table, update_cliente);
    let id = update(update_cliente, changed)?;
    find_in(table, id)
}

fn delete_in(table: &mut Table, id: Uuid) -> Result<(), ApiError> {
    delete(remove(table, id))
}

fn update_of(id: Uuid, nome: &str, sobrenome: &str) -> UpdateCliente {
    UpdateCliente {
        id: id.to_string(),
        nome: nome.to_string(),
        sobrenome: sobrenome.to_string(),
        cpf: Some("12345678901".to_string()),
        rg: Some("123456789".to_string()),
        data_nascimento: Some(birthday()),
        sexo: Some("M".to_string()),
        estado_civil: Some("Solteiro".to_string()),
        telefone: Some("12345678901".to_string()),
        updated_by: id.to_string(),
    }
}

#[test]
fn cliente_it_gets_a_cliente() {
    let clientes = get_all_clientes(&get_pool());
    assert!(clientes.is_ok());
}

#[test]
fn cliente_test_find() {
    let pool = get_pool();
    let clientes = get_all_clientes(&pool).unwrap();
    let cliente = &clientes.0[0];
    let found_cliente = find_in(&pool, cliente.id).unwrap();
    assert_eq!(cliente, &found_cliente);
}

#[test]
fn cliente_it_doesnt_find_a_cliente() {
    let cliente_id = Uuid::new_v4();
    let not_found_cliente = find_in(&get_pool(), cliente_id);
    assert!(not_found_cliente.is_err());
    assert_eq!(
        not_found_cliente.unwrap_err(),
        ApiError::NotFound(format!("Cliente {} not found", cliente_id.to_string()))
    );
}

#[test]
fn cliente_it_creates_a_cliente() {
    let mut pool = get_pool();
    let created = create_cliente(&mut pool);
    assert!(created.is_ok());
    let unwrapped = created.unwrap();
    let found_cliente = find_in(&pool, unwrapped.id.clone()).unwrap();
    let cliente_id = unwrapped.id;
    delete_in(&mut pool, cliente_id).unwrap();
    assert_eq!(unwrapped, found_cliente);
}

#[test]
fn cliente_it_updates_a_cliente() {
    let mut pool = get_pool();
    let created = create_cliente(&mut pool).unwrap();
    let update_cliente = update_of(created.id, "ModelUpdate", "TestUpdate");
    let updated = update_in(&mut pool, &update_cliente);
    assert!(updated.is_ok());
    let found_cliente = find_in(&pool, created.id).unwrap();
    let updated = updated.unwrap();
    assert_eq!(updated.nome, "ModelUpdate");
    assert_eq!(updated, found_cliente);
    delete_in(&mut pool, created.id).unwrap();
}

#[test]
fn it_fails_to_update_a_nonexistent_cliente() {
    let cliente_id = Uuid::new_v4();
    let update_cliente = update_of(cliente_id, "ModelUpdateFailure", "TestUpdateFailure");
    let updated = update_in(&mut get_pool(), &update_cliente);
    assert!(updated.is_err());
}

#[test]
fn cliente_it_deletes_a_cliente() {
    let mut pool = get_pool();
    let created = create_cliente(&mut pool);
    let cliente_id = created.unwrap().id;
    let cliente = find_in(&pool, cliente_id);
    assert!(cliente.is_ok());
    delete_in(&mut pool, cliente_id).unwrap();
    let cliente = find_in(&pool, cliente_id);
    assert!(cliente.is_err());
}

#[test]
fn it_gets_all_clientes() {
    let mut pool = get_pool();
    create_cliente(&mut pool).unwrap();
    let clientes = get_all_clientes(&pool).unwrap();
    assert_eq!(clientes.0.len(), 2);
    assert_eq!(clientes.0[0].id.to_string(), pool.rows[0].id);
    assert_eq!(clientes.0[1].id.to_string(), pool.rows[1].id);
}

#[test]
fn a_cliente_is_shown_with_its_empty_fields() {
    let mut new = new_cliente();
    new.cpf = None;
    new.data_nascimento = None;
    let row = Cliente::stamped(new.clone(), birthday(), birthday());
    assert_eq!(row.duplicate(), row);
    let shown = create(&row, Ok(1)).unwrap();
    assert_eq!(shown.id.to_string(), new.id);
    assert_eq!(shown.nome, "Model");
    assert_eq!(shown.cpf, None);
    assert_eq!(shown.rg, Some("123456789".to_string()));
    assert_eq!(shown.data_nascimento, None);
}

#[test]
fn cliente_failures_are_answered_by_their_outward_form() {
    let mut row = Cliente::from(new_cliente());
    let exhausted = StorageError::Pool(PoolError::Exhausted);
    assert_eq!(get_all(Err(exhausted)), Err(ApiError::exhausted()));
    assert_eq!(find(Uuid::nil(), Err(StorageError::Backend)), Err(ApiError::internal()));
    assert_eq!(create(&row, Err(exhausted)), Err(ApiError::exhausted()));
    assert_eq!(update(&update_of(Uuid::nil(), "a", "b"), Err(StorageError::Backend)), Err(ApiError::internal()));
    assert_eq!(delete(Err(exhausted)), Err(ApiError::exhausted()));
    row.id = "no uuid".to_string();
    assert_eq!(find(Uuid::nil(), Ok(row.clone())), Err(ApiError::internal()));
    assert_eq!(get_all(Ok(vec![row])), Err(ApiError::internal()));
}
