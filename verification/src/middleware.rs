//! The auth gate in front of every protected route.
//!
//! A request to a protected route passes four stages. The token is taken
//! from where the request carries it; the token is judged by its form, its
//! tag and its time; the identity it names is looked up; and only then does
//! the handler run, with that identity attached. A request that fails a
//! stage is answered at once and never reaches the handler.
//!
//! The first two stages need nothing from outside but the record of
//! withdrawn tokens and are done in one call, [`Gate::enter`]. The lookup is
//! the caller's; its outcome goes to [`Gate::resolve`]. What is then to be
//! done, to call the handler or to answer with an error, is
//! [`Gate::passage`]: the handler is called on `Invoke` and never else.
//! Routes that are not protected are not wrapped by a gate at all.

use crate::database::StorageError;
use crate::errors::{
    internal_text, invalid_session_text, normalize, normalized, single, ApiError, ErrorKind,
    Failure,
};
use crate::ids::{hyphenated, uuid_parse, Uuid};
use crate::models::user::AuthUser;
use crate::routes::{is_protected, protected_path};
use crate::session::{
    check_unless_revoked, checked, checked_unless_revoked, lemma_minted_token_checks, tag_of,
    token_text, Claims, TokenError,
};
use vstd::prelude::*;

verus! {

/// Where a request stands at its gate.
#[derive(Debug)]
pub enum Gate {
    /// The token was good; the identity it names is being looked up.
    IdentityResolution(Claims),
    /// The request may proceed as this identity. Terminal.
    Authorized(AuthUser),
    /// The request is answered with this error. Terminal.
    Rejected(ApiError),
}

/// What is to be done with a request that has passed through its gate.
#[derive(Debug)]
pub enum Passage {
    /// Call the handler, with this identity attached.
    Invoke(AuthUser),
    /// Do not call the handler; answer with this error.
    Respond(ApiError),
}

/// The token a request carries, if it carries one. An empty text is no
/// token.
pub open spec fn extracted(carrier: Option<Seq<char>>) -> Option<Seq<char>> {
    match carrier {
        Some(text) => if text.len() == 0 {
            None
        } else {
            Some(text)
        },
        None => None,
    }
}

/// The verdict of the first two stages on what a request carries, given
/// the tags on record as withdrawn.
pub open spec fn judged(
    carrier: Option<Seq<char>>,
    now: u64,
    key: Seq<char>,
    revoked: Seq<Seq<char>>,
) -> Result<(u128, u64), TokenError> {
    match extracted(carrier) {
        Some(token) => checked_unless_revoked(token, now, key, revoked),
        None => Err(TokenError::Missing),
    }
}

/// What the lookup of an identity leads to.
///
/// A user whose id is the token's subject is admitted. No user, or another
/// user than the token names, means the session is not good, which is the
/// caller's fault. A lookup that itself failed is the service's fault,
/// whatever the reason: the caller's token may well be good.
pub open spec fn resolved_kind(subject: u128, lookup: Result<Option<AuthUser>, StorageError>)
    -> Option<ErrorKind> {
    match lookup {
        Ok(Some(user)) => if uuid_parse(user.id@) == Some(subject) {
            None
        } else {
            Some(ErrorKind::Unauthorized)
        },
        Ok(None) => Some(ErrorKind::Unauthorized),
        Err(StorageError::NotFound) => Some(ErrorKind::Unauthorized),
        Err(_) => Some(ErrorKind::InternalFailure),
    }
}

/// The text of what a request carries, if it carries anything.
pub open spec fn carried(carrier: Option<&str>) -> Option<Seq<char>> {
    match carrier {
        Some(text) => Some(text@),
        None => None,
    }
}

/// Whether a gate is where the first two stages leave a request.
///
/// A request whose token is good stands at the lookup of the identity that
/// the token names. Any other is rejected as `Unauthorized`, with the same
/// text whether the token was missing, malformed, forged, expired or
/// withdrawn.
pub open spec fn entered(
    gate: Gate,
    carrier: Option<Seq<char>>,
    now: u64,
    key: Seq<char>,
    revoked: Seq<Seq<char>>,
) -> bool {
    match judged(carrier, now, key, revoked) {
        Ok((subject, expires_at)) => gate matches Gate::IdentityResolution(claims)
            && claims.subject@ == subject && claims.expires_at == expires_at,
        Err(_) => gate matches Gate::Rejected(e) && e@ == single(
            ErrorKind::Unauthorized,
            invalid_session_text(),
        ),
    }
}

/// Stage one: takes the token from what the request carries.
pub fn extract_token<'a>(carrier: Option<&'a str>) -> (token: Result<&'a str, TokenError>)
    ensures
        match extracted(carried(carrier)) {
            Some(text) => token is Ok && token.unwrap()@ == text,
            None => token == Err::<&str, TokenError>(TokenError::Missing),
        },
{
    match carrier {
        Some(text) => {
            if text.unicode_len() == 0 {
                Err(TokenError::Missing)
            } else {
                Ok(text)
            }
        },
        None => Err(TokenError::Missing),
    }
}

/// Stage two: judges the token at the moment `now`, given the tags on
/// record as withdrawn.
pub fn validate_token(token: &str, now: u64, key: &str, revoked: &Vec<String>) -> (verdict:
    Result<Claims, TokenError>)
    ensures
        match checked_unless_revoked(token@, now, key@, revoked.deep_view()) {
            Ok((subject, expires_at)) => verdict matches Ok(claims) && claims.subject@ == subject
                && claims.expires_at == expires_at,
            Err(e) => verdict == Err::<Claims, TokenError>(e),
        },
{
    check_unless_revoked(token, now, key, revoked)
}

impl Gate {
    /// Whether `after` is this gate after the outcome of the lookup.
    pub open spec fn resolves_to(
        self,
        lookup: Result<Option<AuthUser>, StorageError>,
        after: Gate,
    ) -> bool {
        match self {
            Gate::IdentityResolution(claims) => match resolved_kind(claims.subject@, lookup) {
                None => after == Gate::Authorized(lookup->Ok_0->Some_0),
                Some(ErrorKind::Unauthorized) => after matches Gate::Rejected(e) && e@ == single(
                    ErrorKind::Unauthorized,
                    invalid_session_text(),
                ),
                Some(_) => after matches Gate::Rejected(e) && e@ == single(
                    ErrorKind::InternalFailure,
                    internal_text(),
                ),
            },
            _ => after == self,
        }
    }

    /// Whether `passage` is what this gate lets be done: the handler is
    /// called behind an `Authorized` gate, with its identity, and behind no
    /// other. A `Rejected` gate answers with its error, and a gate that
    /// still waits for its lookup with an internal failure.
    pub open spec fn lets(self, passage: Passage) -> bool {
        match self {
            Gate::Authorized(user) => passage == Passage::Invoke(user),
            Gate::Rejected(e) => passage == Passage::Respond(e),
            Gate::IdentityResolution(_) => passage matches Passage::Respond(e) && e@ == single(
                ErrorKind::InternalFailure,
                internal_text(),
            ),
        }
    }

    /// Stages one and two for a request that arrived at a protected route.
    ///
    /// A request whose token is good and not withdrawn goes on to the
    /// lookup of the identity that the token names. Any other is rejected.
    pub fn enter(carrier: Option<&str>, now: u64, key: &str, revoked: &Vec<String>) -> (gate:
        Gate)
        ensures
            entered(gate, carried(carrier), now, key@, revoked.deep_view()),
    {
        let token = match extract_token(carrier) {
            Ok(token) => token,
            Err(e) => {
                return Gate::Rejected(normalize(Failure::Session(e)));
            },
        };
        match validate_token(token, now, key, revoked) {
            Ok(claims) => Gate::IdentityResolution(claims),
            Err(e) => Gate::Rejected(normalize(Failure::Session(e))),
        }
    }

    /// Stage three: takes the outcome of the lookup.
    ///
    /// A gate that waits for the lookup becomes `Authorized` with the user
    /// that was found, if it is the one the token names, and `Rejected`
    /// otherwise: as `Unauthorized` where the session is not good, as
    /// `InternalFailure` where the lookup itself failed. A gate that does
    /// not wait for a lookup stays as it is.
    pub fn resolve(self, lookup: Result<Option<AuthUser>, StorageError>) -> (gate: Gate)
        ensures
            self.resolves_to(lookup, gate),
    {
        match self {
            Gate::IdentityResolution(claims) => {
                match lookup {
                    Ok(Some(user)) => {
                        let named = match Uuid::parse_str(user.id.as_str()) {
                            Some(id) => id.as_u128() == claims.subject.as_u128(),
                            None => false,
                        };
                        if named {
                            Gate::Authorized(user)
                        } else {
                            Gate::Rejected(normalize(Failure::Session(TokenError::Revoked)))
                        }
                    },
                    Ok(None) => Gate::Rejected(normalize(Failure::Session(TokenError::Revoked))),
                    Err(StorageError::NotFound) => Gate::Rejected(
                        normalize(Failure::Session(TokenError::Revoked)),
                    ),
                    Err(_) => Gate::Rejected(ApiError::internal()),
                }
            },
            other => other,
        }
    }

    /// Whether the handler may run.
    pub fn is_authorized(&self) -> (yes: bool)
        ensures
            yes == (self is Authorized),
    {
        match self {
            Gate::Authorized(_) => true,
            _ => false,
        }
    }

    /// Stage four, as a decision: what is to be done with the request.
    pub fn passage(self) -> (passage: Passage)
        ensures
            self.lets(passage),
    {
        match self {
            Gate::Authorized(user) => Passage::Invoke(user),
            Gate::Rejected(e) => Passage::Respond(e),
            Gate::IdentityResolution(_) => Passage::Respond(ApiError::internal()),
        }
    }

    /// Stage four: runs the handler behind this gate, or does not.
    ///
    /// The handler runs, once and with the identity attached, only behind a
    /// gate that is `Authorized`. Behind a `Rejected` gate the answer is the
    /// gate's error. A gate that still waits for its lookup lets nobody
    /// through: the answer is an internal failure.
    pub fn proceed<T, H: FnOnce(AuthUser) -> T>(self, handler: H) -> (answer: Result<T, ApiError>)
        requires
            self matches Gate::Authorized(user) ==> call_requires(handler, (user,)),
        ensures
            match self {
                Gate::Authorized(user) => answer is Ok && call_ensures(
                    handler,
                    (user,),
                    answer->Ok_0,
                ),
                Gate::Rejected(e) => answer == Err::<T, ApiError>(e),
                Gate::IdentityResolution(_) => answer is Err && answer->Err_0@ == single(
                    ErrorKind::InternalFailure,
                    internal_text(),
                ),
            },
    {
        match self.passage() {
            Passage::Invoke(user) => Ok(handler(user)),
            Passage::Respond(e) => Err(e),
        }
    }
}

/// What stands between a request and its handler: nothing on a route that
/// is not protected, and on a protected one a gate that the request has
/// entered.
pub fn screen(path: &str, carrier: Option<&str>, now: u64, key: &str, revoked: &Vec<String>)
    -> (gate: Option<Gate>)
    ensures
        gate is Some <==> protected_path(path@),
        gate is Some ==> entered(
            gate.unwrap(),
            carried(carrier),
            now,
            key@,
            revoked.deep_view(),
        ),
{
    if is_protected(path) {
        Some(Gate::enter(carrier, now, key, revoked))
    } else {
        None
    }
}

/// A request without a token is rejected as `Unauthorized` at the first
/// stage, whatever the time, the key and the record.
pub proof fn lemma_no_token_is_unauthorized(
    gate: Gate,
    now: u64,
    key: Seq<char>,
    revoked: Seq<Seq<char>>,
)
    requires
        entered(gate, None, now, key, revoked) || entered(
            gate,
            Some(Seq::<char>::empty()),
            now,
            key,
            revoked,
        ),
    ensures
        gate matches Gate::Rejected(e) && e@.kind == ErrorKind::Unauthorized,
{
}

/// The handler is called only behind an `Authorized` gate.
pub proof fn lemma_invoke_needs_identity(gate: Gate, passage: Passage)
    requires
        gate.lets(passage),
    ensures
        passage is Invoke <==> gate is Authorized,
{
}

/// Once rejected, always rejected: whatever a lookup reports afterwards,
/// a rejected gate stays as it is, and what it lets be done is to answer
/// with its error. The handler is not called.
pub proof fn lemma_rejected_never_invokes(
    gate: Gate,
    lookup: Result<Option<AuthUser>, StorageError>,
    after: Gate,
    passage: Passage,
)
    requires
        gate is Rejected,
        gate.resolves_to(lookup, after),
        after.lets(passage),
    ensures
        after == gate,
        passage == Passage::Respond(gate->Rejected_0),
        gate.lets(passage),
{
}

/// A request without a token never reaches its handler: at every stage
/// after the first, whatever the lookup reports, what is to be done is to
/// answer `Unauthorized`.
pub proof fn lemma_no_token_never_invokes(
    gate: Gate,
    now: u64,
    key: Seq<char>,
    revoked: Seq<Seq<char>>,
    lookup: Result<Option<AuthUser>, StorageError>,
    after: Gate,
    passage: Passage,
)
    requires
        entered(gate, None, now, key, revoked) || entered(
            gate,
            Some(Seq::<char>::empty()),
            now,
            key,
            revoked,
        ),
        gate.resolves_to(lookup, after),
        gate.lets(passage) || after.lets(passage),
    ensures
        passage matches Passage::Respond(e) && e@ == single(
            ErrorKind::Unauthorized,
            invalid_session_text(),
        ),
{
    lemma_rejected_never_invokes(gate, lookup, after, passage);
}

/// A token that has expired is rejected like any other bad token: the
/// error is `Unauthorized` with the text of every refused session, and
/// nothing in it tells the reason.
pub proof fn lemma_expired_token_is_unauthorized(
    gate: Gate,
    token: Seq<char>,
    now: u64,
    key: Seq<char>,
    revoked: Seq<Seq<char>>,
)
    requires
        token.len() > 0,
        checked(token, now, key) == Err::<(u128, u64), TokenError>(TokenError::Expired),
        entered(gate, Some(token), now, key, revoked),
    ensures
        gate matches Gate::Rejected(e) && e@ == normalized(Failure::Session(TokenError::Forged))
            && e@ == normalized(Failure::Session(TokenError::Missing)) && e@.kind
            == ErrorKind::Unauthorized,
{
}

/// A token that was withdrawn is rejected as `Unauthorized` at every
/// moment from then on, however good it is otherwise, and its request never
/// reaches the handler.
pub proof fn lemma_withdrawn_token_is_unauthorized(
    gate: Gate,
    token: Seq<char>,
    now: u64,
    key: Seq<char>,
    revoked: Seq<Seq<char>>,
    lookup: Result<Option<AuthUser>, StorageError>,
    after: Gate,
    passage: Passage,
)
    requires
        revoked.contains(tag_of(token)),
        entered(gate, Some(token), now, key, revoked),
        gate.resolves_to(lookup, after),
        after.lets(passage),
    ensures
        gate matches Gate::Rejected(e) && e@ == single(
            ErrorKind::Unauthorized,
            invalid_session_text(),
        ),
        passage == Passage::Respond(gate->Rejected_0),
{
}

/// A token minted for an identity opens the auth gate for that identity
/// until it expires or is withdrawn: under the key it was minted with, a
/// request that carries it before its expiry, with its tag not on record,
/// stands at the lookup of that identity, and the lookup of a user with
/// that id lets the handler be called with that user. This rests on the
/// `uuid` crate reading back the text it writes.
pub proof fn lemma_minted_token_opens(
    gate: Gate,
    subject: u128,
    expires_at: u64,
    key: Seq<char>,
    now: u64,
    revoked: Seq<Seq<char>>,
    user: AuthUser,
    after: Gate,
    passage: Passage,
)
    requires
        uuid_parse(hyphenated(subject)) == Some(subject),
        now < expires_at,
        !revoked.contains(tag_of(token_text(subject, expires_at, key))),
        entered(gate, Some(token_text(subject, expires_at, key)), now, key, revoked),
        uuid_parse(user.id@) == Some(subject),
        gate.resolves_to(Ok(Some(user)), after),
        after.lets(passage),
    ensures
        gate matches Gate::IdentityResolution(claims) && claims.subject@ == subject
            && claims.expires_at == expires_at,
        after == Gate::Authorized(user),
        passage == Passage::Invoke(user),
{
    lemma_minted_token_checks(subject, expires_at, key, now);
    assert(token_text(subject, expires_at, key).len() > 0);
}

/// A failed lookup is never blamed on the caller, and a missing identity
/// is never blamed on the service.
pub proof fn lemma_resolution_blame(subject: u128, lookup: Result<Option<AuthUser>, StorageError>)
    ensures
        (lookup is Err && lookup->Err_0 != StorageError::NotFound) <==> resolved_kind(
            subject,
            lookup,
        ) == Some(ErrorKind::InternalFailure),
        resolved_kind(subject, lookup) is None ==> lookup is Ok && lookup->Ok_0 is Some,
{
}

} // verus!
