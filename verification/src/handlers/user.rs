//! Requests about users and the outward form of a user.

use crate::errors::ApiError;
use crate::ids::{hyphenated, is_version_4, uuid_parse, Uuid};
use crate::models::user::{NewUser, UpdateUser, User};
use crate::parallel::par_map;
use crate::validate::{
    conclude, email_valid, has_length_at_least, is_email, length_at_least, note, noted, verdict,
};
use chrono::NaiveDateTime;
use vstd::prelude::*;

verus! {

/// A user as shown to callers: without the password and the bookkeeping.
#[derive(Debug, PartialEq)]
pub struct UserResponse {
    pub id: Uuid,
    pub nome: String,
    pub sobrenome: String,
    pub cpf: String,
    pub rg: String,
    pub data_nascimento: NaiveDateTime,
    pub sexo: String,
    pub estado_civil: String,
    pub telefone: String,
    pub email: String,
}

/// A list of users as shown to callers.
#[derive(Debug, PartialEq)]
pub struct UsersResponse(pub Vec<UserResponse>);

/// The request to create a user.
#[derive(Clone, Debug)]
pub struct CreateUserRequest {
    pub nome: String,
    pub sobrenome: String,
    pub cpf: String,
    pub rg: String,
    pub sexo: String,
    pub estado_civil: String,
    pub telefone: String,
    pub data_nascimento: NaiveDateTime,
    pub email: String,
    pub password: String,
}

/// The request to change a user.
#[derive(Clone, Debug)]
pub struct UpdateUserRequest {
    pub nome: String,
    pub sobrenome: String,
    pub cpf: String,
    pub rg: String,
    pub sexo: String,
    pub estado_civil: String,
    pub telefone: String,
    pub data_nascimento: NaiveDateTime,
    pub email: String,
}

impl UserResponse {
    /// Whether the row can be shown: its id reads as a UUID, and none of
    /// the fields that a response must have is empty in the row.
    pub open spec fn complete(user: User) -> bool {
        &&& uuid_parse(user.id@) is Some
        &&& user.cpf is Some
        &&& user.rg is Some
        &&& user.data_nascimento is Some
        &&& user.sexo is Some
        &&& user.estado_civil is Some
        &&& user.telefone is Some
    }

    /// The outward form of a row that can be shown.
    pub open spec fn of(user: User) -> UserResponse
        recommends
            UserResponse::complete(user),
    {
        UserResponse {
            id: Uuid { value: uuid_parse(user.id@).unwrap() },
            nome: user.nome,
            sobrenome: user.sobrenome,
            cpf: user.cpf.unwrap(),
            rg: user.rg.unwrap(),
            data_nascimento: user.data_nascimento.unwrap(),
            sexo: user.sexo.unwrap(),
            estado_civil: user.estado_civil.unwrap(),
            telefone: user.telefone.unwrap(),
            email: user.email,
        }
    }

    /// Whether the row can be shown.
    pub fn is_complete(user: &User) -> (yes: bool)
        ensures
            yes == UserResponse::complete(*user),
    {
        Uuid::parse_str(user.id.as_str()).is_some() && user.cpf.is_some() && user.rg.is_some()
            && user.data_nascimento.is_some() && user.sexo.is_some()
            && user.estado_civil.is_some() && user.telefone.is_some()
    }

    /// The outward form of a row.
    pub fn from(user: User) -> (response: UserResponse)
        requires
            UserResponse::complete(user),
        ensures
            response == UserResponse::of(user),
    {
        UserResponse {
            id: Uuid::parse_str(user.id.as_str()).unwrap(),
            nome: user.nome,
            sobrenome: user.sobrenome,
            cpf: user.cpf.unwrap(),
            rg: user.rg.unwrap(),
            data_nascimento: user.data_nascimento.unwrap(),
            sexo: user.sexo.unwrap(),
            estado_civil: user.estado_civil.unwrap(),
            telefone: user.telefone.unwrap(),
            email: user.email,
        }
    }
}

impl UsersResponse {
    /// Whether every row can be shown.
    pub open spec fn all_complete(users: Seq<User>) -> bool {
        forall|i: int| 0 <= i < users.len() ==> UserResponse::complete(#[trigger] users[i])
    }

    /// The outward forms of the rows, in the rows' order.
    pub open spec fn of(users: Seq<User>) -> Seq<UserResponse> {
        Seq::new(users.len(), |i: int| UserResponse::of(users[i]))
    }

    /// The outward form of a list of rows. The rows are converted on the
    /// worker threads and keep their order.
    pub fn from(users: Vec<User>) -> (response: UsersResponse)
        requires
            UsersResponse::all_complete(users@),
        ensures
            response.0@ == UsersResponse::of(users@),
    {
        let shown = par_map(users, UserResponse::from);
        assert(shown@ =~= UsersResponse::of(users@));
        UsersResponse(shown)
    }
}

impl CreateUserRequest {
    /// The lines of the checks that the request fails: the two names have
    /// at least three characters, the address is an e-mail address, the
    /// password has at least six characters.
    pub open spec fn violations(self) -> Seq<Seq<char>> {
        let l0 = Seq::<Seq<char>>::empty();
        let l1 = noted(
            l0,
            length_at_least(self.nome@, 3),
            "O primeiro nome deve ter pelo menos 3 caracteres"@,
        );
        let l2 = noted(
            l1,
            length_at_least(self.sobrenome@, 3),
            "O sobrenome deve ter pelo menos 3 caracteres"@,
        );
        let l3 = noted(l2, email_valid(self.email@), "O email deve ser valido"@);
        noted(
            l3,
            length_at_least(self.password@, 6),
            "A senha deve deve ter pelo menos 6 caracteres"@,
        )
    }

    /// Checks the request.
    pub fn validate(&self) -> (outcome: Result<(), ApiError>)
        ensures
            match verdict(self.violations()) {
                None => outcome is Ok,
                Some(e) => outcome is Err && outcome->Err_0@ == e,
            },
    {
        let mut lines: Vec<String> = Vec::new();
        assert(lines.deep_view() =~= Seq::<Seq<char>>::empty());
        note(
            &mut lines,
            has_length_at_least(self.nome.as_str(), 3),
            "O primeiro nome deve ter pelo menos 3 caracteres",
        );
        note(
            &mut lines,
            has_length_at_least(self.sobrenome.as_str(), 3),
            "O sobrenome deve ter pelo menos 3 caracteres",
        );
        note(&mut lines, is_email(self.email.as_str()), "O email deve ser valido");
        note(
            &mut lines,
            has_length_at_least(self.password.as_str(), 6),
            "A senha deve deve ter pelo menos 6 caracteres",
        );
        conclude(lines)
    }

    /// Whether `new` is the new user that this request asks for under the
    /// id: the id's canonical text as the id and as who made and changed
    /// it, and the request's fields.
    pub open spec fn asks_for(self, id: u128, new: NewUser) -> bool {
        &&& new.id@ == hyphenated(id)
        &&& uuid_parse(new.id@) == Some(id)
        &&& new.nome == self.nome
        &&& new.sobrenome == self.sobrenome
        &&& new.cpf == Some(self.cpf)
        &&& new.rg == Some(self.rg)
        &&& new.data_nascimento == Some(self.data_nascimento)
        &&& new.sexo == Some(self.sexo)
        &&& new.estado_civil == Some(self.estado_civil)
        &&& new.telefone == Some(self.telefone)
        &&& new.email == self.email
        &&& new.password == self.password
        &&& new.created_by@ == hyphenated(id)
        &&& new.updated_by@ == hyphenated(id)
    }
}

impl UpdateUserRequest {
    /// The lines of the checks that the request fails: the two names have
    /// at least three characters, the address is an e-mail address.
    pub open spec fn violations(self) -> Seq<Seq<char>> {
        let l0 = Seq::<Seq<char>>::empty();
        let l1 = noted(
            l0,
            length_at_least(self.nome@, 3),
            "O primeiro nome deve ter pelo menos 3 caracteres"@,
        );
        let l2 = noted(
            l1,
            length_at_least(self.sobrenome@, 3),
            "O sobrenome deve ter pelo menos 3 caracteres"@,
        );
        noted(l2, email_valid(self.email@), "O email deve ser valido"@)
    }

    /// Checks the request.
    pub fn validate(&self) -> (outcome: Result<(), ApiError>)
        ensures
            match verdict(self.violations()) {
                None => outcome is Ok,
                Some(e) => outcome is Err && outcome->Err_0@ == e,
            },
    {
        let mut lines: Vec<String> = Vec::new();
        assert(lines.deep_view() =~= Seq::<Seq<char>>::empty());
        note(
            &mut lines,
            has_length_at_least(self.nome.as_str(), 3),
            "O primeiro nome deve ter pelo menos 3 caracteres",
        );
        note(
            &mut lines,
            has_length_at_least(self.sobrenome.as_str(), 3),
            "O sobrenome deve ter pelo menos 3 caracteres",
        );
        note(&mut lines, is_email(self.email.as_str()), "O email deve ser valido");
        conclude(lines)
    }

    /// Whether `update` holds the new values that this request asks for
    /// for the user with the id: the request's fields, and the id's
    /// canonical text as the id and as who changed it.
    pub open spec fn asks_for(self, id: u128, update: UpdateUser) -> bool {
        &&& update.id@ == hyphenated(id)
        &&& uuid_parse(update.id@) == Some(id)
        &&& update.nome == self.nome
        &&& update.sobrenome == self.sobrenome
        &&& update.cpf == Some(self.cpf)
        &&& update.rg == Some(self.rg)
        &&& update.data_nascimento == Some(self.data_nascimento)
        &&& update.sexo == Some(self.sexo)
        &&& update.estado_civil == Some(self.estado_civil)
        &&& update.telefone == Some(self.telefone)
        &&& update.email == self.email
        &&& update.updated_by@ == hyphenated(id)
    }
}

/// The new user that a request asks for, under the given id.
pub fn new_user(params: &CreateUserRequest, user_id: &Uuid) -> (new: NewUser)
    ensures
        params.asks_for(user_id@, new),
{
    NewUser {
        id: user_id.to_string(),
        nome: params.nome.clone(),
        sobrenome: params.sobrenome.clone(),
        cpf: Some(params.cpf.clone()),
        rg: Some(params.rg.clone()),
        data_nascimento: Some(params.data_nascimento),
        sexo: Some(params.sexo.clone()),
        estado_civil: Some(params.estado_civil.clone()),
        telefone: Some(params.telefone.clone()),
        email: params.email.clone(),
        password: params.password.clone(),
        created_by: user_id.to_string(),
        updated_by: user_id.to_string(),
    }
}

/// Decides a request to create a user.
///
/// A request that fails a check is refused with the lines of the failed
/// checks, and nothing else happens. For a valid request a fresh random id
/// is drawn, and the answer is the row to store: the request's fields
/// under that id, with the password in its stored form.
pub fn create_user(params: &CreateUserRequest) -> (answer: Result<User, ApiError>)
    ensures
        match verdict(params.violations()) {
            Some(e) => answer is Err && answer->Err_0@ == e,
            None => answer matches Ok(row) && uuid_parse(row.id@) matches Some(id) && is_version_4(
                id,
            ) && exists|new: NewUser| #[trigger] params.asks_for(id, new) && row.is_row_of(new),
        },
{
    match params.validate() {
        Err(e) => Err(e),
        Ok(_) => {
            let user_id = Uuid::new_v4();
            let new = new_user(params, &user_id);
            let row = User::from(new);
            assert(params.asks_for(user_id@, new) && row.is_row_of(new));
            Ok(row)
        },
    }
}

/// Decides a request to change the user with the given id.
///
/// A request that fails a check is refused with the lines of the failed
/// checks. For a valid request the answer holds the new values to store.
pub fn update_user(user_id: &Uuid, params: &UpdateUserRequest) -> (answer: Result<
    UpdateUser,
    ApiError,
>)
    ensures
        match verdict(params.violations()) {
            Some(e) => answer is Err && answer->Err_0@ == e,
            None => answer matches Ok(update) && params.asks_for(user_id@, update),
        },
{
    match params.validate() {
        Err(e) => Err(e),
        Ok(_) => Ok(
            UpdateUser {
                id: user_id.to_string(),
                nome: params.nome.clone(),
                sobrenome: params.sobrenome.clone(),
                cpf: Some(params.cpf.clone()),
                rg: Some(params.rg.clone()),
                data_nascimento: Some(params.data_nascimento),
                sexo: Some(params.sexo.clone()),
                estado_civil: Some(params.estado_civil.clone()),
                telefone: Some(params.telefone.clone()),
                email: params.email.clone(),
                updated_by: user_id.to_string(),
            },
        ),
    }
}

} // verus!
