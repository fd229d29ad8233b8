//! Users: the rows, and the reading of what storage reports of them.

use crate::auth::{accepts, constant_time_eq, hash, hash_of, verify};
use crate::clock::now;
use crate::database::StorageError;
use crate::errors::{
    answers, internal_text, invalid_login_text, missing_text, normalize_storage, single,
    storage_outward, ApiError, ApiErrorView, ErrorKind,
};
use crate::handlers::user::{UserResponse, UsersResponse};
use crate::ids::{uuid_parse, Uuid};
use crate::models::clone_text;
use chrono::NaiveDateTime;
use vstd::prelude::*;
use vstd::utf8::encode_utf8_decode_utf8;

verus! {

/// A user as stored.
#[derive(Clone, Debug, PartialEq)]
pub struct User {
    /// The user's UUID, as text.
    pub id: String,
    pub nome: String,
    pub sobrenome: String,
    pub cpf: Option<String>,
    pub rg: Option<String>,
    pub data_nascimento: Option<NaiveDateTime>,
    pub sexo: Option<String>,
    pub estado_civil: Option<String>,
    pub telefone: Option<String>,
    pub email: String,
    /// The stored form of the password, never the password.
    pub password: String,
    pub created_by: String,
    pub created_at: NaiveDateTime,
    pub updated_by: String,
    pub updated_at: NaiveDateTime,
}

/// A user about to be stored, the password still in the clear.
#[derive(Clone, Debug)]
pub struct NewUser {
    pub id: String,
    pub nome: String,
    pub sobrenome: String,
    pub cpf: Option<String>,
    pub rg: Option<String>,
    pub data_nascimento: Option<NaiveDateTime>,
    pub sexo: Option<String>,
    pub estado_civil: Option<String>,
    pub telefone: Option<String>,
    pub email: String,
    pub password: String,
    pub created_by: String,
    pub updated_by: String,
}

/// The new values for a stored user.
#[derive(Clone, Debug)]
pub struct UpdateUser {
    pub id: String,
    pub nome: String,
    pub sobrenome: String,
    pub cpf: Option<String>,
    pub rg: Option<String>,
    pub data_nascimento: Option<NaiveDateTime>,
    pub sexo: Option<String>,
    pub estado_civil: Option<String>,
    pub telefone: Option<String>,
    pub email: String,
    pub updated_by: String,
}

/// The identity attached to a request that passed the auth gate.
#[derive(Clone, Debug, PartialEq, Eq)]
pub struct AuthUser {
    /// The user's UUID, as text.
    pub id: String,
    pub email: String,
}

impl User {
    /// Whether this is the row for the new user, the two moments apart:
    /// every field is taken over but the password, of which only the
    /// stored form is kept.
    pub open spec fn is_row_of(self, new: NewUser) -> bool {
        &&& self.id == new.id
        &&& self.nome == new.nome
        &&& self.sobrenome == new.sobrenome
        &&& self.cpf == new.cpf
        &&& self.rg == new.rg
        &&& self.data_nascimento == new.data_nascimento
        &&& self.sexo == new.sexo
        &&& self.estado_civil == new.estado_civil
        &&& self.telefone == new.telefone
        &&& self.email == new.email
        &&& self.password@ == hash_of(new.password@)
        &&& self.created_by == new.created_by
        &&& self.updated_by == new.updated_by
    }

    /// The row for a new user, made and last changed at the given moments.
    pub fn stamped(user: NewUser, created_at: NaiveDateTime, updated_at: NaiveDateTime) -> (row:
        User)
        ensures
            row.is_row_of(user),
            row.created_at == created_at,
            row.updated_at == updated_at,
    {
        let password = hash(user.password.as_str());
        User {
            id: user.id,
            nome: user.nome,
            sobrenome: user.sobrenome,
            cpf: user.cpf,
            rg: user.rg,
            data_nascimento: user.data_nascimento,
            sexo: user.sexo,
            estado_civil: user.estado_civil,
            telefone: user.telefone,
            email: user.email,
            password,
            created_by: user.created_by,
            created_at,
            updated_by: user.updated_by,
            updated_at,
        }
    }

    /// The row for a new user, made and last changed now. The clock is
    /// read twice, once for each moment.
    pub fn from(user: NewUser) -> (row: User)
        ensures
            row.is_row_of(user),
    {
        let created_at = now();
        let updated_at = now();
        User::stamped(user, created_at, updated_at)
    }

    /// A copy of the row.
    pub fn duplicate(&self) -> (copy: User)
        ensures
            copy == *self,
    {
        User {
            id: self.id.clone(),
            nome: self.nome.clone(),
            sobrenome: self.sobrenome.clone(),
            cpf: clone_text(&self.cpf),
            rg: clone_text(&self.rg),
            data_nascimento: self.data_nascimento,
            sexo: clone_text(&self.sexo),
            estado_civil: clone_text(&self.estado_civil),
            telefone: clone_text(&self.telefone),
            email: self.email.clone(),
            password: self.password.clone(),
            created_by: self.created_by.clone(),
            created_at: self.created_at,
            updated_by: self.updated_by.clone(),
            updated_at: self.updated_at,
        }
    }
}

/// What the caller is told of a row that storage handed over: the row's
/// outward form, or an internal failure if the row cannot be shown.
pub open spec fn shown(user: User) -> Result<UserResponse, ApiErrorView> {
    if UserResponse::complete(user) {
        Ok(UserResponse::of(user))
    } else {
        Err(single(ErrorKind::InternalFailure, internal_text()))
    }
}

/// Shows a row, if it can be shown.
fn show(user: User) -> (answer: Result<UserResponse, ApiError>)
    ensures
        answers(answer, shown(user)),
{
    if UserResponse::is_complete(&user) {
        Ok(UserResponse::from(user))
    } else {
        Err(ApiError::internal())
    }
}

/// What the caller is told of a load of all users.
///
/// The rows come back in their outward form, in the order storage gave
/// them. One row that cannot be shown fails the whole answer as an internal
/// failure; a failed load is answered by its outward form.
pub open spec fn listed(loaded: Result<Vec<User>, StorageError>) -> Result<
    Seq<UserResponse>,
    ApiErrorView,
> {
    match loaded {
        Ok(rows) => if UsersResponse::all_complete(rows@) {
            Ok(UsersResponse::of(rows@))
        } else {
            Err(single(ErrorKind::InternalFailure, internal_text()))
        },
        Err(e) => Err(storage_outward(e)),
    }
}

/// Reads the report of loading all users.
pub fn get_all(loaded: Result<Vec<User>, StorageError>) -> (answer: Result<UsersResponse, ApiError>)
    ensures
        match listed(loaded) {
            Ok(responses) => answer is Ok && answer->Ok_0.0@ == responses,
            Err(e) => answer is Err && answer->Err_0@ == e,
        },
{
    match loaded {
        Ok(rows) => {
            let mut i: usize = 0;
            while i < rows.len()
                invariant
                    loaded == Ok::<Vec<User>, StorageError>(rows),
                    i <= rows@.len(),
                    forall|k: int| 0 <= k < i ==> UserResponse::complete(#[trigger] rows@[k]),
                decreases rows.len() - i,
            {
                if !UserResponse::is_complete(&rows[i]) {
                    assert(!UserResponse::complete(rows@[i as int]));
                    return Err(ApiError::internal());
                }
                i += 1;
            }
            Ok(UsersResponse::from(rows))
        },
        Err(e) => Err(normalize_storage(e)),
    }
}

/// What the caller is told of a lookup by id.
///
/// A row that was found is shown. A missing row is `NotFound`, with a text
/// that names the user by the id that was asked for. Any other failure is
/// answered by its outward form.
pub open spec fn found(user_id: u128, fetched: Result<User, StorageError>) -> Result<
    UserResponse,
    ApiErrorView,
> {
    match fetched {
        Ok(user) => shown(user),
        Err(StorageError::NotFound) => Err(
            single(ErrorKind::NotFound, missing_text("User"@, user_id)),
        ),
        Err(e) => Err(storage_outward(e)),
    }
}

/// Reads the report of looking a user up by id.
pub fn find(user_id: Uuid, fetched: Result<User, StorageError>) -> (answer: Result<
    UserResponse,
    ApiError,
>)
    ensures
        answers(answer, found(user_id@, fetched)),
{
    match fetched {
        Ok(user) => show(user),
        Err(StorageError::NotFound) => Err(ApiError::missing("User", &user_id)),
        Err(e) => Err(normalize_storage(e)),
    }
}

/// Whether the row is the one that the address and password belong to.
pub open spec fn authenticates(user: User, user_email: Seq<char>, user_password: Seq<char>)
    -> bool {
    user.email@ == user_email && accepts(user_password, user.password@)
}

/// What the caller is told of a lookup for a login, by the address that
/// was given.
///
/// The row is shown if it has that address and its stored hash is that of
/// the password. A missing row, another address and a wrong password are
/// all the same refused login. A failure of storage is answered by its
/// outward form.
pub open spec fn found_by_auth(
    user_email: Seq<char>,
    user_password: Seq<char>,
    fetched: Result<User, StorageError>,
) -> Result<UserResponse, ApiErrorView> {
    match fetched {
        Ok(user) => if authenticates(user, user_email, user_password) {
            shown(user)
        } else {
            Err(single(ErrorKind::Unauthorized, invalid_login_text()))
        },
        Err(StorageError::NotFound) => Err(single(ErrorKind::Unauthorized, invalid_login_text())),
        Err(e) => Err(storage_outward(e)),
    }
}

/// Reads the report of looking a user up for a login. The address and the
/// stored hash are each compared in constant time.
pub fn find_by_auth(user_email: &str, user_password: &str, fetched: Result<User, StorageError>)
    -> (answer: Result<UserResponse, ApiError>)
    ensures
        answers(answer, found_by_auth(user_email@, user_password@, fetched)),
{
    match fetched {
        Ok(user) => {
            let password_fits = verify(user_password, user.password.as_str());
            let email_fits = constant_time_eq(
                user.email.as_str().as_bytes(),
                user_email.as_bytes(),
            );
            proof {
                encode_utf8_decode_utf8(user.email@);
                encode_utf8_decode_utf8(user_email@);
            }
            if email_fits && password_fits {
                show(user)
            } else {
                Err(ApiError::invalid_login())
            }
        },
        Err(StorageError::NotFound) => Err(ApiError::invalid_login()),
        Err(e) => Err(normalize_storage(e)),
    }
}

/// What the caller is told of storing a new user: the row's outward form
/// if it was stored, the failure's outward form if not.
pub open spec fn created(new_user: User, inserted: Result<usize, StorageError>) -> Result<
    UserResponse,
    ApiErrorView,
> {
    match inserted {
        Ok(_) => shown(new_user),
        Err(e) => Err(storage_outward(e)),
    }
}

/// Reads the report of storing a new user.
pub fn create(new_user: &User, inserted: Result<usize, StorageError>) -> (answer: Result<
    UserResponse,
    ApiError,
>)
    ensures
        answers(answer, created(*new_user, inserted)),
{
    match inserted {
        Ok(_) => show(new_user.duplicate()),
        Err(e) => Err(normalize_storage(e)),
    }
}

/// What follows a change of a stored user: the id of the row, which is
/// then looked up and read with [`find`]. An id that is no UUID is an
/// internal failure; a failed change is answered by its outward form.
pub open spec fn updated_id(update_user: UpdateUser, updated: Result<usize, StorageError>)
    -> Result<u128, ApiErrorView> {
    match updated {
        Ok(_) => match uuid_parse(update_user.id@) {
            Some(id) => Ok(id),
            None => Err(single(ErrorKind::InternalFailure, internal_text())),
        },
        Err(e) => Err(storage_outward(e)),
    }
}

/// Reads the report of changing a stored user.
pub fn update(update_user: &UpdateUser, updated: Result<usize, StorageError>) -> (answer: Result<
    Uuid,
    ApiError,
>)
    ensures
        match updated_id(*update_user, updated) {
            Ok(id) => answer is Ok && answer->Ok_0@ == id,
            Err(e) => answer is Err && answer->Err_0@ == e,
        },
{
    match updated {
        Ok(_) => match Uuid::parse_str(update_user.id.as_str()) {
            Some(id) => Ok(id),
            None => Err(ApiError::internal()),
        },
        Err(e) => Err(normalize_storage(e)),
    }
}

/// What the caller is told of a deletion. Deleting a user that is not
/// there is no failure.
pub open spec fn deleted_outcome(deleted: Result<usize, StorageError>) -> Result<(), ApiErrorView> {
    match deleted {
        Ok(_) => Ok(()),
        Err(e) => Err(storage_outward(e)),
    }
}

/// Reads the report of deleting a user.
pub fn delete(deleted: Result<usize, StorageError>) -> (answer: Result<(), ApiError>)
    ensures
        answers(answer, deleted_outcome(deleted)),
{
    match deleted {
        Ok(_) => Ok(()),
        Err(e) => Err(normalize_storage(e)),
    }
}

/// What is answered when a row was stored is what is answered when that
/// row is found again, whatever id it is asked for by.
pub proof fn lemma_created_is_found(row: User, stored: usize, asked: u128)
    ensures
        created(row, Ok(stored)) == found(asked, Ok(row)),
{
}

} // verus!
