use chrono::{NaiveDate, NaiveDateTime};
use orcamento_api::auth::hash;
use orcamento_api::database::{PoolError, StorageError};
use orcamento_api::errors::ApiError;
use orcamento_api::handlers::user::{UserResponse, UsersResponse};
use orcamento_api::ids::Uuid;
use orcamento_api::models::user::{
    create, delete, find, find_by_auth, get_all, update, NewUser, UpdateUser, User,
};
use orcamento_api::models::{keeps_change, settle_change};

/// The users table, kept in memory.
struct Table {
    rows: Vec<User>,
}

fn birthday() -> NaiveDateTime {
    NaiveDate::from_ymd_opt(1990, 1, 1).unwrap().and_hms_milli_opt(0, 0, 0, 0).unwrap()
}

fn new_user(email: &str) -> NewUser {
    let user_id = Uuid::new_v4();
    NewUser {
        id: user_id.to_string(),
        nome: "Model".to_string(),
        sobrenome: "Test".to_string(),
        cpf: Some("12345678901".to_string()),
        rg: Some("123456789".to_string()),
        data_nascimento: Some(birthday()),
        sexo: Some("M".to_string()),
        estado_civil: Some("Solteiro".to_string()),
        telefone: Some("12345678901".to_string()),
        email: email.to_string(),
        password: "123456".to_string(),
        created_by: user_id.to_string(),
        updated_by: user_id.to_string(),
    }
}

fn get_pool() -> Table {
    Table { rows: vec![User::from(new_user("seed@nothing.org"))] }
}

fn load(table: &Table) -> Result<Vec<User>, StorageError> {
    Ok(table.rows.clone())
}

fn fetch(table: &Table, id: Uuid) -> Result<User, StorageError> {
    let text = id.to_string();
    table.rows.iter().find(|row| row.id == text).cloned().ok_or(StorageError::NotFound)
}

fn insert(table: &mut Table, row: &User) -> Result<usize, StorageError> {
    if table.rows.iter().any(|r| r.id == row.id) {
        return Err(StorageError::Backend);
    }
    table.rows.push(row.clone());
    Ok(1)
}

fn change(table: &mut Table, update: &UpdateUser) -> Result<usize, StorageError> {
    let mut changed = 0;
    for row in table.rows.iter_mut().filter(|row| row.id == update.id) {
        row.nome = update.nome.clone();
        row.sobrenome = update.sobrenome.clone();
        row.cpf = update.cpf.clone();
        row.rg = update.rg.clone();
        row.data_nascimento = update.data_nascimento;
        row.sexo = update.sexo.clone();
        row.estado_civil = update.estado_civil.clone();
        row.telefone = update.telefone.clone();
        row.email = update.email.clone();
        row.updated_by = update.updated_by.clone();
        changed += 1;
    }
    Ok(changed)
}

fn remove(table: &mut Table, id: Uuid) -> Result<usize, StorageError> {
    let text = id.to_string();
    let before = table.rows.len();
    table.rows.retain(|row| row.id != text);
    Ok(before - table.rows.len())
}

fn get_all_users(table: &Table) -> Result<UsersResponse, ApiError> {
    get_all(load(table))
}

fn find_in(table: &Table, id: Uuid) -> Result<UserResponse, ApiError> {
    find(id, fetch(table, id))
}

fn create_user(table: &mut Table) -> Result<UserResponse, ApiError> {
    create_user_by_email(table, "model_test@nothing.org")
}

fn create_user_by_email(table: &mut Table, email: &str) -> Result<UserResponse, ApiError> {
    let user: User = User::from(new_user(email));
    let inserted = insert(table, &user);
    create(&user, inserted)
}

fn update_in(table: &mut Table, update_user: &UpdateUser) -> Result<UserResponse, ApiError> {
    let changed = change(table, update_user);
    let id = update(update_user, changed)?;
    find_in(table, id)
}

fn delete_in(table: &mut Table, id: Uuid) -> Result<(), ApiError> {
    delete(remove(table, id))
}

fn update_of(id: Uuid, nome: &str, sobrenome: &str, email: &str) -> UpdateUser {
    UpdateUser {
        id: id.to_string(),
        nome: nome.to_string(),
        sobrenome: sobrenome.to_string(),
        cpf: Some("12345678901".to_string()),
        rg: Some("123456789".to_string()),
        data_nascimento: Some(birthday()),
        sexo: Some("M".to_string()),
        estado_civil: Some("Solteiro".to_string()),
        telefone: Some("12345678901".to_string()),
        email: email.to_string(),
        updated_by: id.to_string(),
    }
}

#[test]
fn user_it_gets_a_user() {
    let users = get_all_users(&get_pool());
    assert!(users.is_ok());
}

#[test]
fn user_test_find() {
    let pool = get_pool();
    let users = get_all_users(&pool).unwrap();
    let user = &users.0[0];
    let found_user = find_in(&pool, user.id).unwrap();
    assert_eq!(user, &found_user);
}

#[test]
fn user_it_doesnt_find_a_user() {
    let user_id = Uuid::new_v4();
    let not_found_user = find_in(&get_pool(), user_id);
    assert!(not_found_user.is_err());
    assert_eq!(
        not_found_user.unwrap_err(),
        ApiError::NotFound(format!("User {} not found", user_id.to_string()))
    );
}

#[test]
fn user_it_creates_a_user() {
    let mut pool = get_pool();
    let created = create_user(&mut pool);
    assert!(created.is_ok());
    let unwrapped = created.unwrap();
    let found_user = find_in(&pool, unwrapped.id.clone()).unwrap();
    let user_id = unwrapped.id;
    delete_in(&mut pool, user_id).unwrap();
    assert_eq!(unwrapped, found_user);
}

#[test]
fn user_it_updates_a_user() {
    let mut pool = get_pool();
    let created = create_user_by_email(&mut pool, "teste_model_update6@teste.com").unwrap();
    let update_user =
        update_of(created.id, "ModelUpdate", "TestUpdate", "teste_model_update6@teste.com");
    let updated = update_in(&mut pool, &update_user);
    assert!(updated.is_ok());
    let found_user = find_in(&pool, created.id).unwrap();
    let updated = updated.unwrap();
    assert_eq!(updated.nome, "ModelUpdate");
    assert_eq!(updated.sobrenome, "TestUpdate");
    assert_eq!(updated, found_user);
    delete_in(&mut pool, created.id).unwrap();
}

#[test]
fn it_fails_to_update_a_nonexistent_user() {
    let user_id = Uuid::new_v4();
    let update_user = update_of(
        user_id,
        "ModelUpdateFailure",
        "TestUpdateFailure",
        "model-update-failure-test@nothing.org",
    );
    let updated = update_in(&mut get_pool(), &update_user);
    assert!(updated.is_err());
    assert_eq!(
        updated.unwrap_err(),
        ApiError::NotFound(format!("User {} not found", user_id.to_string()))
    );
}

#[test]
fn user_it_deletes_a_user() {
    let mut pool = get_pool();
    let created = create_user_by_email(&mut pool, "teste_model_delete@teste.com");
    let user_id = created.unwrap().id;
    let user = find_in(&pool, user_id);
    assert!(user.is_ok());
    delete_in(&mut pool, user_id).unwrap();
    let user = find_in(&pool, user_id);
    assert!(user.is_err());
}

#[test]
fn user_it_gets_all_users() {
    let mut pool = get_pool();
    create_user(&mut pool).unwrap();
    create_user_by_email(&mut pool, "third@nothing.org").unwrap();
    let users = get_all_users(&pool).unwrap();
    assert_eq!(users.0.len(), 3);
    for (shown, row) in users.0.iter().zip(pool.rows.iter()) {
        assert_eq!(shown.id.to_string(), row.id);
        assert_eq!(shown.email, row.email);
    }
    assert_eq!(users.0[2].email, "third@nothing.org");
}

#[test]
fn a_new_user_is_stored_with_the_hash_of_the_password() {
    let before = chrono::Utc::now().naive_utc();
    let new = new_user("model_test@nothing.org");
    let row = User::from(new.clone());
    let after = chrono::Utc::now().naive_utc();
    assert_eq!(row.password, hash("123456"));
    assert_ne!(row.password, "123456");
    assert_eq!(row.id, new.id);
    assert_eq!(row.email, new.email);
    assert_eq!(row.cpf, new.cpf);
    assert_eq!(row.data_nascimento, Some(birthday()));
    assert_eq!(row.created_by, new.created_by);
    assert_eq!(row.updated_by, new.updated_by);
    assert!(before <= row.created_at && row.created_at <= row.updated_at);
    assert!(row.updated_at <= after);
}

#[test]
fn a_stamped_user_has_the_given_moments() {
    let made = birthday();
    let changed = NaiveDate::from_ymd_opt(2000, 2, 3).unwrap().and_hms_opt(4, 5, 6).unwrap();
    let row = User::stamped(new_user("a@b.org"), made, changed);
    assert_eq!(row.created_at, made);
    assert_eq!(row.updated_at, changed);
    assert_eq!(row.duplicate(), row);
}

#[test]
fn a_row_that_cannot_be_shown_is_an_internal_failure() {
    let mut row = User::from(new_user("a@b.org"));
    row.cpf = None;
    assert_eq!(find(Uuid::nil(), Ok(row.clone())), Err(ApiError::internal()));
    assert_eq!(create(&row, Ok(1)), Err(ApiError::internal()));
    let good = User::from(new_user("c@d.org"));
    assert_eq!(get_all(Ok(vec![good.clone(), row, good])), Err(ApiError::internal()));
    let mut bad_id = User::from(new_user("e@f.org"));
    bad_id.id = "1".to_string();
    assert_eq!(find(Uuid::nil(), Ok(bad_id)), Err(ApiError::internal()));
}

#[test]
fn storage_failures_are_answered_by_their_outward_form() {
    let row = User::from(new_user("a@b.org"));
    let exhausted = StorageError::Pool(PoolError::Exhausted);
    assert_eq!(get_all(Err(exhausted)), Err(ApiError::exhausted()));
    assert_eq!(get_all(Err(StorageError::Backend)), Err(ApiError::internal()));
    assert_eq!(get_all(Err(StorageError::NotFound)), Err(ApiError::not_found()));
    assert_eq!(get_all(Ok(vec![])), Ok(UsersResponse(vec![])));
    assert_eq!(find(Uuid::nil(), Err(exhausted)), Err(ApiError::exhausted()));
    assert_eq!(find(Uuid::nil(), Err(StorageError::Backend)), Err(ApiError::internal()));
    assert_eq!(create(&row, Err(StorageError::Backend)), Err(ApiError::internal()));
    assert_eq!(create(&row, Err(exhausted)), Err(ApiError::exhausted()));
    let update_user = update_of(Uuid::nil(), "abc", "def", "a@b.org");
    assert_eq!(update(&update_user, Err(exhausted)), Err(ApiError::exhausted()));
    assert_eq!(update(&update_user, Ok(0)), Ok(Uuid::nil()));
    assert_eq!(delete(Err(StorageError::Backend)), Err(ApiError::internal()));
    assert_eq!(delete(Err(StorageError::NotFound)), Err(ApiError::not_found()));
    assert_eq!(delete(Ok(0)), Ok(()));
}

#[test]
fn an_update_whose_id_is_no_uuid_is_an_internal_failure() {
    let mut update_user = update_of(Uuid::nil(), "abc", "def", "a@b.org");
    update_user.id = "no uuid".to_string();
    assert_eq!(update(&update_user, Ok(1)), Err(ApiError::internal()));
}

#[test]
fn find_by_auth_wants_the_address_and_the_password() {
    let row = User::from(new_user("model_test@nothing.org"));
    let shown = find_by_auth("model_test@nothing.org", "123456", Ok(row.clone())).unwrap();
    assert_eq!(shown.id.to_string(), row.id);
    assert_eq!(shown.email, "model_test@nothing.org");
    let invalid = Err(ApiError::Unauthorized("Invalid login".into()));
    assert_eq!(find_by_auth("model_test@nothing.org", "1234567", Ok(row.clone())), invalid);
    assert_eq!(find_by_auth("model_test@nothing.org", "", Ok(row.clone())), invalid);
    assert_eq!(find_by_auth("other@nothing.org", "123456", Ok(row.clone())), invalid);
    assert_eq!(find_by_auth("model_test@nothing.org", &row.password, Ok(row.clone())), invalid);
    assert_eq!(find_by_auth("model_test@nothing.org", "123456", Err(StorageError::NotFound)), invalid);
    assert_eq!(
        find_by_auth("model_test@nothing.org", "123456", Err(StorageError::Backend)),
        Err(ApiError::internal())
    );
    assert_eq!(
        find_by_auth(
            "model_test@nothing.org",
            "123456",
            Err(StorageError::Pool(PoolError::Exhausted))
        ),
        Err(ApiError::exhausted())
    );
}

#[test]
fn find_by_auth_refuses_a_row_with_a_malformed_hash() {
    let mut row = User::from(new_user("model_test@nothing.org"));
    row.password = "123456".to_string();
    assert_eq!(
        find_by_auth("model_test@nothing.org", "123456", Ok(row)),
        Err(ApiError::invalid_login())
    );
}

/// A change made as one unit: the statements run on a copy of the table,
/// which takes the table's place only if the change is to be kept.
fn update_as_a_unit(
    table: &mut Table,
    update_user: &UpdateUser,
    lookup_fails: bool,
) -> Result<UserResponse, ApiError> {
    let mut work = Table { rows: table.rows.clone() };
    let changed = change(&mut work, update_user);
    let told = update(update_user, changed).and_then(|id| {
        let fetched = if lookup_fails { Err(StorageError::Backend) } else { fetch(&work, id) };
        find(id, fetched)
    });
    let closed = if keeps_change(&told) {
        table.rows = work.rows;
        Ok(())
    } else {
        Err(StorageError::Backend)
    };
    settle_change(closed, Some(told))
}

#[test]
fn a_change_that_is_answered_with_an_error_leaves_the_row_as_it_was() {
    let mut pool = get_pool();
    let created = create_user(&mut pool).unwrap();
    let before = pool.rows.clone();
    let update_user = update_of(created.id, "ModelUpdate", "TestUpdate", "new@nothing.org");
    let told = update_as_a_unit(&mut pool, &update_user, true);
    assert_eq!(told, Err(ApiError::internal()));
    assert_eq!(pool.rows, before);
    let told = update_as_a_unit(&mut pool, &update_user, false).unwrap();
    assert_eq!(told.nome, "ModelUpdate");
    assert_eq!(told.email, "new@nothing.org");
    assert_ne!(pool.rows, before);
    assert_eq!(find_in(&pool, created.id), Ok(told));
    let kept = pool.rows.clone();
    let missing = update_of(Uuid::new_v4(), "ModelUpdate", "TestUpdate", "new@nothing.org");
    assert!(update_as_a_unit(&mut pool, &missing, false).is_err());
    assert_eq!(pool.rows, kept);
}

#[test]
fn a_change_is_kept_exactly_if_it_is_answered_with_a_row() {
    assert!(keeps_change(&Ok::<u32, ApiError>(1)));
    assert!(!keeps_change(&Err::<u32, ApiError>(ApiError::not_found())));
    assert!(!keeps_change(&Err::<u32, ApiError>(ApiError::internal())));
}

#[test]
fn settle_change_tells_of_a_row_only_if_the_unit_ended_well() {
    let exhausted = StorageError::Pool(PoolError::Exhausted);
    assert_eq!(settle_change(Ok(()), Some(Ok(7))), Ok(7));
    assert_eq!(settle_change(Err(StorageError::Backend), Some(Ok(7))), Err(ApiError::internal()));
    assert_eq!(settle_change(Err(exhausted), Some(Ok(7))), Err(ApiError::exhausted()));
    let not_found = ApiError::NotFound("User x not found".into());
    assert_eq!(
        settle_change::<u32>(Err(StorageError::Backend), Some(Err(not_found.clone()))),
        Err(not_found.clone())
    );
    assert_eq!(settle_change::<u32>(Ok(()), Some(Err(not_found.clone()))), Err(not_found));
    assert_eq!(settle_change::<u32>(Err(exhausted), None), Err(ApiError::exhausted()));
    assert_eq!(settle_change::<u32>(Err(StorageError::Backend), None), Err(ApiError::internal()));
    assert_eq!(settle_change::<u32>(Ok(()), None), Err(ApiError::internal()));
}
