//! Logging in.
//!
//! A login names a user by address and proves it by password. If the
//! credential verifier accepts the pair, the caller gets the user and a
//! session token for it, good for a fixed time. If not, the caller gets
//! `Unauthorized` and no token. A logout withdraws the token that the
//! caller shows: its tag goes on record, and the token is refused from then
//! on.

use crate::database::StorageError;
use crate::errors::{invalid_session_text, single, ApiError, ErrorKind};
use crate::handlers::user::UserResponse;
use crate::models::user::{find_by_auth, found_by_auth, User};
use crate::middleware::{carried, entered, extract_token, extracted, Gate};
use crate::session::{
    checked, mint, tag_of, token_text, withdraw, withdrawn, Claims, TokenError,
};
use vstd::prelude::*;

verus! {

/// The request to log in.
#[derive(Clone, Debug)]
pub struct LoginRequest {
    pub email: String,
    pub password: String,
}

/// The second at which a token minted at `now` for `ttl` seconds expires:
/// their sum, or the last second there is if the sum is past it.
pub open spec fn expiry(now: u64, ttl: u64) -> u64 {
    if now + ttl > u64::MAX {
        u64::MAX
    } else {
        (now + ttl) as u64
    }
}

/// Decides a login from what the lookup of the address reported.
///
/// The user is the one [`find_by_auth`] answers with, and any error is its
/// error. On success the token is the one for the user's id under the key,
/// expiring `ttl` seconds after `now`: it is judged good for that user at
/// every moment before its expiry and expired from then on.
pub fn login(
    params: &LoginRequest,
    fetched: Result<User, StorageError>,
    now: u64,
    ttl: u64,
    key: &str,
) -> (answer: Result<(UserResponse, String), ApiError>)
    ensures
        match found_by_auth(params.email@, params.password@, fetched) {
            Ok(user) => answer matches Ok((shown, token)) && shown == user && token@ == token_text(
                user.id@,
                expiry(now, ttl),
                key@,
            ) && forall|later: u64|
                #![trigger checked(token@, later, key@)]
                checked(token@, later, key@) == if later < expiry(now, ttl) {
                    Ok::<(u128, u64), TokenError>((user.id@, expiry(now, ttl)))
                } else {
                    Err::<(u128, u64), TokenError>(TokenError::Expired)
                },
            Err(e) => answer is Err && answer->Err_0@ == e,
        },
{
    match find_by_auth(params.email.as_str(), params.password.as_str(), fetched) {
        Ok(user) => {
            let claims = Claims { subject: user.id, expires_at: now.saturating_add(ttl) };
            let token = mint(&claims, key);
            Ok((user, token))
        },
        Err(e) => Err(e),
    }
}

/// What a logout puts on record: the tag of the token that the request
/// carries, if it carries one that is good at the moment `now`, and
/// nothing otherwise.
pub open spec fn logged_out(carrier: Option<Seq<char>>, now: u64, key: Seq<char>) -> Option<
    Seq<char>,
> {
    match extracted(carrier) {
        Some(token) => withdrawn(token, now, key),
        None => None,
    }
}

/// Decides a logout: the answer is the tag to put on record as withdrawn,
/// if there is one. With that tag on record the token is refused at every
/// protected route.
pub fn logout(carrier: Option<&str>, now: u64, key: &str) -> (tag: Option<String>)
    ensures
        match logged_out(carried(carrier), now, key@) {
            Some(text) => tag is Some && tag.unwrap()@ == text,
            None => tag is None,
        },
{
    match extract_token(carrier) {
        Ok(token) => withdraw(token, now, key),
        Err(_) => None,
    }
}

/// A logout closes the auth gate to its token: once what the logout gave
/// is on record, a request that carries the token is rejected as
/// `Unauthorized` at every later moment, whatever else is on record.
pub proof fn lemma_logout_closes(
    gate: Gate,
    token: Seq<char>,
    now: u64,
    later: u64,
    key: Seq<char>,
    revoked: Seq<Seq<char>>,
)
    requires
        logged_out(Some(token), now, key) is Some,
        entered(
            gate,
            Some(token),
            later,
            key,
            revoked.push(logged_out(Some(token), now, key).unwrap()),
        ),
    ensures
        gate matches Gate::Rejected(e) && e@ == single(
            ErrorKind::Unauthorized,
            invalid_session_text(),
        ),
{
    let record = revoked.push(tag_of(token));
    assert(record[revoked.len() as int] == tag_of(token));
}

} // verus!
