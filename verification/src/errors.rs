//! The outward error type and the total mapping onto it.
//!
//! Every layer below the handlers fails in its own terms: the pool times
//! out, a worker dies, a token is stale, a row is missing. None of those
//! terms leaves the service. `normalize` folds each of them into an
//! [`ApiError`], which carries one of five kinds and the text shown to the
//! caller.

use crate::bridge::BridgeError;
use crate::database::{PoolError, StorageError};
use crate::ids::{hyphenated, Uuid};
use crate::session::TokenError;
use vstd::prelude::*;
use vstd::string::*;

verus! {

/// The closed set of kinds an outward error can have.
#[derive(Clone, Copy, Debug, PartialEq, Eq, Structural)]
pub enum ErrorKind {
    /// Missing, malformed, expired or forged session; wrong login.
    Unauthorized,
    /// The entity that was asked for does not exist.
    NotFound,
    /// The caller's input failed a check before storage was reached.
    ValidationFailed,
    /// No pooled connection became free within the bounded wait.
    ResourceExhausted,
    /// Any other failure: backend, worker, or one that has no mapping.
    InternalFailure,
}

impl ErrorKind {
    /// The status number the transport answers with for this kind.
    pub open spec fn spec_status_code(self) -> u16 {
        match self {
            ErrorKind::Unauthorized => 401,
            ErrorKind::NotFound => 404,
            ErrorKind::ValidationFailed => 422,
            ErrorKind::ResourceExhausted => 500,
            ErrorKind::InternalFailure => 500,
        }
    }

    #[verifier::when_used_as_spec(spec_status_code)]
    pub fn status_code(self) -> (code: u16)
        ensures
            code == self.spec_status_code(),
    {
        match self {
            ErrorKind::Unauthorized => 401,
            ErrorKind::NotFound => 404,
            ErrorKind::ValidationFailed => 422,
            ErrorKind::ResourceExhausted => 500,
            ErrorKind::InternalFailure => 500,
        }
    }
}

/// The only error shape that is ever returned to a caller.
#[derive(Clone, Debug, PartialEq, Eq)]
pub enum ApiError {
    Unauthorized(String),
    NotFound(String),
    /// One line per failed check, in the order of the checked fields.
    ValidationFailed(Vec<String>),
    ResourceExhausted(String),
    InternalFailure(String),
}

/// What an [`ApiError`] is: its kind and the lines of text it carries.
/// Every variant but `ValidationFailed` carries exactly one line.
pub struct ApiErrorView {
    pub kind: ErrorKind,
    pub lines: Seq<Seq<char>>,
}

impl View for ApiError {
    type V = ApiErrorView;

    open spec fn view(&self) -> ApiErrorView {
        match self {
            ApiError::Unauthorized(m) => ApiErrorView {
                kind: ErrorKind::Unauthorized,
                lines: seq![m@],
            },
            ApiError::NotFound(m) => ApiErrorView { kind: ErrorKind::NotFound, lines: seq![m@] },
            ApiError::ValidationFailed(ms) => ApiErrorView {
                kind: ErrorKind::ValidationFailed,
                lines: ms.deep_view(),
            },
            ApiError::ResourceExhausted(m) => ApiErrorView {
                kind: ErrorKind::ResourceExhausted,
                lines: seq![m@],
            },
            ApiError::InternalFailure(m) => ApiErrorView {
                kind: ErrorKind::InternalFailure,
                lines: seq![m@],
            },
        }
    }
}

/// Whether an answer is the expected one: the same value, or an error with
/// the same kind and lines.
pub open spec fn answers<T>(answer: Result<T, ApiError>, expected: Result<T, ApiErrorView>)
    -> bool {
    match expected {
        Ok(value) => answer == Ok::<T, ApiError>(value),
        Err(e) => answer is Err && answer->Err_0@ == e,
    }
}

/// The text of a rejected login. It does not say which of the two, the
/// address or the password, was wrong.
pub open spec fn invalid_login_text() -> Seq<char> {
    "Invalid login"@
}

/// The text of a rejected session. It does not say which check failed.
pub open spec fn invalid_session_text() -> Seq<char> {
    "Invalid session"@
}

/// The text of a missing entity whose caller gave no better one.
pub open spec fn not_found_text() -> Seq<char> {
    "Not found"@
}

/// The text of an exhausted pool.
pub open spec fn exhausted_text() -> Seq<char> {
    "Service busy"@
}

/// The text of every internal failure. No detail of the cause is in it.
pub open spec fn internal_text() -> Seq<char> {
    "Internal server error"@
}

/// The text of a missing entity that is known by its id: the entity's
/// name, its id in canonical form, and `not found`, with a space between
/// two of them.
pub open spec fn missing_text(entity: Seq<char>, id: u128) -> Seq<char> {
    entity + seq![' '] + hyphenated(id) + " not found"@
}

/// An error of the given kind with one line of text.
pub open spec fn single(kind: ErrorKind, line: Seq<char>) -> ApiErrorView {
    ApiErrorView { kind, lines: seq![line] }
}

impl ApiError {
    /// A rejected login.
    pub fn invalid_login() -> (e: ApiError)
        ensures
            e@ == single(ErrorKind::Unauthorized, invalid_login_text()),
    {
        ApiError::Unauthorized(String::from_str("Invalid login"))
    }

    /// A rejected session.
    pub fn invalid_session() -> (e: ApiError)
        ensures
            e@ == single(ErrorKind::Unauthorized, invalid_session_text()),
    {
        ApiError::Unauthorized(String::from_str("Invalid session"))
    }

    /// A missing entity, with the generic text.
    pub fn not_found() -> (e: ApiError)
        ensures
            e@ == single(ErrorKind::NotFound, not_found_text()),
    {
        ApiError::NotFound(String::from_str("Not found"))
    }

    /// A missing entity that is known by its id.
    pub fn missing(entity: &str, id: &Uuid) -> (e: ApiError)
        ensures
            e@ == single(ErrorKind::NotFound, missing_text(entity@, id@)),
    {
        let mut text = String::from_str(entity);
        text.append(" ");
        text.append(id.to_string().as_str());
        text.append(" not found");
        proof {
            reveal_strlit(" ");
            assert(" "@ =~= seq![' ']);
            assert(text@ =~= missing_text(entity@, id@));
        }
        ApiError::NotFound(text)
    }

    /// An exhausted pool.
    pub fn exhausted() -> (e: ApiError)
        ensures
            e@ == single(ErrorKind::ResourceExhausted, exhausted_text()),
    {
        ApiError::ResourceExhausted(String::from_str("Service busy"))
    }

    /// An internal failure.
    pub fn internal() -> (e: ApiError)
        ensures
            e@ == single(ErrorKind::InternalFailure, internal_text()),
    {
        ApiError::InternalFailure(String::from_str("Internal server error"))
    }

    /// The kind of this error.
    pub fn kind(&self) -> (k: ErrorKind)
        ensures
            k == self@.kind,
    {
        match self {
            ApiError::Unauthorized(_) => ErrorKind::Unauthorized,
            ApiError::NotFound(_) => ErrorKind::NotFound,
            ApiError::ValidationFailed(_) => ErrorKind::ValidationFailed,
            ApiError::ResourceExhausted(_) => ErrorKind::ResourceExhausted,
            ApiError::InternalFailure(_) => ErrorKind::InternalFailure,
        }
    }

    /// The status number the transport answers with for this error.
    pub fn status_code(&self) -> (code: u16)
        ensures
            code == self@.kind.spec_status_code(),
    {
        self.kind().status_code()
    }
}

/// A failure of any layer below the handlers, in that layer's own terms.
#[derive(Debug)]
pub enum Failure {
    /// The credential verifier refused the address and password.
    Login,
    /// The session token was refused.
    Session(TokenError),
    /// The caller's input failed these checks, one line each.
    Validation(Vec<String>),
    /// No lease of a pooled connection could be had.
    Pool(PoolError),
    /// A storage operation failed.
    Storage(StorageError),
    /// Offloaded work failed, in its own outward terms or abnormally.
    Bridge(BridgeError<ApiError>),
    /// Anything that has no mapping of its own. The detail is for the
    /// service's own records and goes no further.
    Other(String),
}

/// The outward form of a pool failure.
pub open spec fn pool_outward(e: PoolError) -> ApiErrorView {
    match e {
        PoolError::Exhausted => single(ErrorKind::ResourceExhausted, exhausted_text()),
        PoolError::BackendUnavailable => single(ErrorKind::InternalFailure, internal_text()),
    }
}

/// The outward form of a storage failure.
pub open spec fn storage_outward(e: StorageError) -> ApiErrorView {
    match e {
        StorageError::Pool(p) => pool_outward(p),
        StorageError::NotFound => single(ErrorKind::NotFound, not_found_text()),
        StorageError::Backend => single(ErrorKind::InternalFailure, internal_text()),
    }
}

/// The outward form of every failure.
///
/// A refused login and a refused session are `Unauthorized`, each with its
/// one text whatever the reason. Failed checks keep their lines. An
/// exhausted pool is `ResourceExhausted`. A missing row is `NotFound`. An
/// error that is already outward passes through as it is. Everything else
/// is `InternalFailure` with the one text that says no more.
pub open spec fn normalized(failure: Failure) -> ApiErrorView {
    match failure {
        Failure::Login => single(ErrorKind::Unauthorized, invalid_login_text()),
        Failure::Session(_) => single(ErrorKind::Unauthorized, invalid_session_text()),
        Failure::Validation(lines) => ApiErrorView {
            kind: ErrorKind::ValidationFailed,
            lines: lines.deep_view(),
        },
        Failure::Pool(e) => pool_outward(e),
        Failure::Storage(e) => storage_outward(e),
        Failure::Bridge(BridgeError::Inner(e)) => e@,
        Failure::Bridge(BridgeError::WorkerPanicked) => single(
            ErrorKind::InternalFailure,
            internal_text(),
        ),
        Failure::Other(_) => single(ErrorKind::InternalFailure, internal_text()),
    }
}

/// Folds a pool failure into its outward form.
pub fn normalize_pool(e: PoolError) -> (out: ApiError)
    ensures
        out@ == pool_outward(e),
{
    match e {
        PoolError::Exhausted => ApiError::exhausted(),
        PoolError::BackendUnavailable => ApiError::internal(),
    }
}

/// Folds a storage failure into its outward form.
pub fn normalize_storage(e: StorageError) -> (out: ApiError)
    ensures
        out@ == storage_outward(e),
{
    match e {
        StorageError::Pool(p) => normalize_pool(p),
        StorageError::NotFound => ApiError::not_found(),
        StorageError::Backend => ApiError::internal(),
    }
}

/// Folds any failure into its outward form. An error that is already
/// outward comes back as the same value.
pub fn normalize(failure: Failure) -> (out: ApiError)
    ensures
        out@ == normalized(failure),
        failure matches Failure::Bridge(BridgeError::Inner(e)) ==> out == e,
{
    match failure {
        Failure::Login => ApiError::invalid_login(),
        Failure::Session(_) => ApiError::invalid_session(),
        Failure::Validation(lines) => ApiError::ValidationFailed(lines),
        Failure::Pool(e) => normalize_pool(e),
        Failure::Storage(e) => normalize_storage(e),
        Failure::Bridge(BridgeError::Inner(e)) => e,
        Failure::Bridge(BridgeError::WorkerPanicked) => ApiError::internal(),
        Failure::Other(_) => ApiError::internal(),
    }
}

/// Every refused session has the same outward form, whatever the reason:
/// an expired token cannot be told from a forged or a missing one.
pub proof fn lemma_refused_sessions_look_alike(a: TokenError, b: TokenError)
    ensures
        normalized(Failure::Session(a)) == normalized(Failure::Session(b)),
        normalized(Failure::Session(a)).kind == ErrorKind::Unauthorized,
{
}

/// A worker that died is an internal failure to the caller.
pub proof fn lemma_dead_worker_is_internal()
    ensures
        normalized(Failure::Bridge(BridgeError::WorkerPanicked)).kind
            == ErrorKind::InternalFailure,
{
}

/// A pool that timed out is `ResourceExhausted`, and the caller is
/// answered with 500.
pub proof fn lemma_exhausted_pool_outward()
    ensures
        normalized(Failure::Pool(PoolError::Exhausted)).kind == ErrorKind::ResourceExhausted,
        normalized(Failure::Storage(StorageError::Pool(PoolError::Exhausted))).kind
            == ErrorKind::ResourceExhausted,
        ErrorKind::ResourceExhausted.spec_status_code() == 500,
{
}

/// No internal failure carries detail outward: whatever the cause, the
/// text is the same one line.
pub proof fn lemma_internal_failures_carry_no_detail(failure: Failure)
    requires
        !(failure is Bridge && failure->Bridge_0 is Inner),
        normalized(failure).kind == ErrorKind::InternalFailure,
    ensures
        normalized(failure) == single(ErrorKind::InternalFailure, internal_text()),
{
}

/// The status numbers follow the kinds: 401, 404 and 422 for the caller's
/// own faults, 500 for the service's.
pub proof fn lemma_status_codes(kind: ErrorKind)
    ensures
        kind == ErrorKind::Unauthorized <==> kind.spec_status_code() == 401,
        kind == ErrorKind::NotFound <==> kind.spec_status_code() == 404,
        kind == ErrorKind::ValidationFailed <==> kind.spec_status_code() == 422,
        (kind == ErrorKind::ResourceExhausted || kind == ErrorKind::InternalFailure)
            <==> kind.spec_status_code() == 500,
{
}

} // verus!
