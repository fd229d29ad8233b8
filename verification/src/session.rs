//! Session tokens: what a caller shows to prove an earlier login.
//!
//! A token is text in three fields with a full stop between two of them,
//! the first of 36 characters and the second of 16:
//!
//! ```text
//! 936da01f-9abd-4d9d-80c7-02af85c822a8.00e1f50500000000.<64 digits>
//! ```
//!
//! The first field is the UUID of the identity the token stands for. The
//! second is the moment the token expires, in seconds since the epoch, as
//! the hexadecimal text of its eight bytes, the lowest first. The third is
//! the tag: the credential verifier's hash of the server's key, a full stop
//! and the first two fields. Only who knows the key can make a tag that
//! fits, so a token whose tag fits was minted here and has not been changed.
//! What is hashed under a tag always has the key's length and 54 characters
//! more, so a tag cannot be carried over to a longer text.
//!
//! A token can be withdrawn before its time, as a logout does. The server
//! then records the token's tag, and a token whose tag is on record is
//! refused as `Revoked` from then on. The record itself is the caller's to
//! keep; it is handed in as a list of tags.

use crate::auth::{accepts, constant_time_eq, hash, hash_of, verify};
use crate::hex::{decode, decoded, encode, encoded, lemma_decode_encode};
use crate::ids::{hyphenated, uuid_parse, Uuid};
use vstd::bytes::*;
use vstd::prelude::*;
use vstd::string::*;
use vstd::utf8::encode_utf8_decode_utf8;

verus! {

/// What a token says: whom it stands for and until when.
#[derive(Clone, Copy, Debug, PartialEq, Eq, Structural)]
pub struct Claims {
    /// The identity the token stands for.
    pub subject: Uuid,
    /// The first second, counted from the epoch, at which the token is no
    /// longer good.
    pub expires_at: u64,
}

/// Why a session token is refused.
#[derive(Clone, Copy, Debug, PartialEq, Eq, Structural)]
pub enum TokenError {
    /// The request carried no token.
    Missing,
    /// The text does not have the form of a token.
    Malformed,
    /// The tag does not fit the rest of the token.
    Forged,
    /// The token's time has passed.
    Expired,
    /// The token was good once and has been withdrawn.
    Revoked,
}

/// The text of the expiry field.
pub open spec fn expiry_text(expires_at: u64) -> Seq<char> {
    encoded(spec_u64_to_le_bytes(expires_at))
}

/// The first two fields of a token and the full stop between them.
pub open spec fn payload_text(subject: u128, expires_at: u64) -> Seq<char> {
    hyphenated(subject) + seq!['.'] + expiry_text(expires_at)
}

/// What is hashed to make the tag of a payload: the key, a full stop, the
/// payload.
pub open spec fn signed_text(key: Seq<char>, payload: Seq<char>) -> Seq<char> {
    key + seq!['.'] + payload
}

/// The token for the claims under the key.
pub open spec fn token_text(subject: u128, expires_at: u64, key: Seq<char>) -> Seq<char> {
    payload_text(subject, expires_at) + seq!['.'] + hash_of(
        signed_text(key, payload_text(subject, expires_at)),
    )
}

/// Whether the text has the three fields of a token at their places: the
/// full stops stand after the 36th and the 53rd character.
pub open spec fn has_token_shape(token: Seq<char>) -> bool {
    token.len() >= 54 && token[36] == '.' && token[53] == '.'
}

/// The third field of a text that has the shape of a token.
pub open spec fn tag_of(token: Seq<char>) -> Seq<char> {
    token.subrange(54, token.len() as int)
}

/// The verdict on a token at the moment `now`.
///
/// The checks are made in this order, and the first that fails decides:
/// the shape, with a subject that reads as a UUID and an expiry that reads
/// as hexadecimal text (`Malformed`); the tag (`Forged`); the time
/// (`Expired`). A token is good until the second before `expires_at`.
pub open spec fn checked(token: Seq<char>, now: u64, key: Seq<char>) -> Result<
    (u128, u64),
    TokenError,
> {
    if !has_token_shape(token) {
        Err(TokenError::Malformed)
    } else {
        let subject = uuid_parse(token.subrange(0, 36));
        let expiry = decoded(token.subrange(37, 53));
        if subject is None || expiry is None {
            Err(TokenError::Malformed)
        } else if !accepts(signed_text(key, token.subrange(0, 53)), tag_of(token)) {
            Err(TokenError::Forged)
        } else if spec_u64_from_le_bytes(expiry.unwrap()) <= now {
            Err(TokenError::Expired)
        } else {
            Ok((subject.unwrap(), spec_u64_from_le_bytes(expiry.unwrap())))
        }
    }
}

/// A token made from claims under a key is judged by those claims alone,
/// under the same key: good before its expiry, expired from then on.
/// This rests on the `uuid` crate reading back the text it writes.
pub proof fn lemma_minted_token_checks(subject: u128, expires_at: u64, key: Seq<char>, now: u64)
    requires
        uuid_parse(hyphenated(subject)) == Some(subject),
    ensures
        checked(token_text(subject, expires_at, key), now, key) == if now < expires_at {
            Ok::<(u128, u64), TokenError>((subject, expires_at))
        } else {
            Err::<(u128, u64), TokenError>(TokenError::Expired)
        },
{
    let token = token_text(subject, expires_at, key);
    let payload = payload_text(subject, expires_at);
    let bytes = spec_u64_to_le_bytes(expires_at);
    lemma_auto_spec_u64_to_from_le_bytes();
    lemma_decode_encode(bytes);
    assert(payload.len() == 53);
    assert(token.subrange(0, 36) =~= hyphenated(subject));
    assert(token.subrange(37, 53) =~= expiry_text(expires_at));
    assert(token.subrange(0, 53) =~= payload);
    assert(tag_of(token) =~= hash_of(signed_text(key, payload)));
}

/// Makes the token for the claims under the key.
pub fn mint(claims: &Claims, key: &str) -> (token: String)
    ensures
        token@ == token_text(claims.subject@, claims.expires_at, key@),
        forall|now: u64|
            #![trigger checked(token@, now, key@)]
            checked(token@, now, key@) == if now < claims.expires_at {
                Ok::<(u128, u64), TokenError>((claims.subject@, claims.expires_at))
            } else {
                Err::<(u128, u64), TokenError>(TokenError::Expired)
            },
{
    let subject = claims.subject.to_string();
    let expiry = encode(u64_to_le_bytes(claims.expires_at).as_slice());
    let mut payload = subject;
    payload.append(".");
    payload.append(expiry.as_str());
    let mut signed = String::from_str(key);
    signed.append(".");
    signed.append(payload.as_str());
    let tag = hash(signed.as_str());
    let mut token = payload;
    token.append(".");
    token.append(tag.as_str());
    proof {
        reveal_strlit(".");
        assert("."@ =~= seq!['.']);
        assert(token@ =~= token_text(claims.subject@, claims.expires_at, key@));
        assert forall|now: u64| #![trigger checked(token@, now, key@)]
            checked(token@, now, key@) == if now < claims.expires_at {
                Ok::<(u128, u64), TokenError>((claims.subject@, claims.expires_at))
            } else {
                Err::<(u128, u64), TokenError>(TokenError::Expired)
            } by {
            lemma_minted_token_checks(claims.subject@, claims.expires_at, key@, now);
        }
    }
    token
}

/// Judges a token at the moment `now` and reads its claims.
pub fn check(token: &str, now: u64, key: &str) -> (verdict: Result<Claims, TokenError>)
    ensures
        match checked(token@, now, key@) {
            Ok((subject, expires_at)) => verdict matches Ok(claims) && claims.subject@ == subject
                && claims.expires_at == expires_at,
            Err(e) => verdict == Err::<Claims, TokenError>(e),
        },
{
    let len: usize = token.unicode_len();
    if len < 54 {
        return Err(TokenError::Malformed);
    }
    if token.get_char(36) != '.' || token.get_char(53) != '.' {
        return Err(TokenError::Malformed);
    }
    let subject = match Uuid::parse_str(token.substring_char(0, 36)) {
        Some(id) => id,
        None => {
            return Err(TokenError::Malformed);
        },
    };
    let expiry_bytes = match decode(token.substring_char(37, 53)) {
        Some(bytes) => bytes,
        None => {
            return Err(TokenError::Malformed);
        },
    };
    let expires_at = u64_from_le_bytes(expiry_bytes.as_slice());
    let mut signed = String::from_str(key);
    signed.append(".");
    signed.append(token.substring_char(0, 53));
    proof {
        reveal_strlit(".");
        assert("."@ =~= seq!['.']);
        assert(signed@ =~= signed_text(key@, token@.subrange(0, 53)));
    }
    if !verify(signed.as_str(), token.substring_char(54, len)) {
        return Err(TokenError::Forged);
    }
    if expires_at <= now {
        return Err(TokenError::Expired);
    }
    Ok(Claims { subject, expires_at })
}

/// The verdict on a token at the moment `now`, given the tags on record as
/// withdrawn.
///
/// The token is judged as by [`checked`], and one check more is made at the
/// end: a token that is good in every other way and whose tag is on record
/// is `Revoked`.
pub open spec fn checked_unless_revoked(
    token: Seq<char>,
    now: u64,
    key: Seq<char>,
    revoked: Seq<Seq<char>>,
) -> Result<(u128, u64), TokenError> {
    match checked(token, now, key) {
        Ok(claims) => if revoked.contains(tag_of(token)) {
            Err(TokenError::Revoked)
        } else {
            Ok(claims)
        },
        Err(e) => Err(e),
    }
}

/// Whether the text is one of the texts of the list.
pub fn is_on_record(record: &Vec<String>, text: &str) -> (yes: bool)
    ensures
        yes == record.deep_view().contains(text@),
{
    let mut i: usize = 0;
    while i < record.len()
        invariant
            i <= record@.len(),
            record.deep_view().len() == record@.len(),
            forall|k: int| 0 <= k < i ==> record.deep_view()[k] != text@,
        decreases record.len() - i,
    {
        let same = constant_time_eq(record[i].as_str().as_bytes(), text.as_bytes());
        proof {
            encode_utf8_decode_utf8(record@[i as int]@);
            encode_utf8_decode_utf8(text@);
            assert(record.deep_view()[i as int] == record@[i as int]@);
        }
        if same {
            return true;
        }
        i += 1;
    }
    false
}

/// Judges a token at the moment `now` and reads its claims, refusing a
/// token whose tag is on record as withdrawn.
pub fn check_unless_revoked(token: &str, now: u64, key: &str, revoked: &Vec<String>) -> (verdict:
    Result<Claims, TokenError>)
    ensures
        match checked_unless_revoked(token@, now, key@, revoked.deep_view()) {
            Ok((subject, expires_at)) => verdict matches Ok(claims) && claims.subject@ == subject
                && claims.expires_at == expires_at,
            Err(e) => verdict == Err::<Claims, TokenError>(e),
        },
{
    match check(token, now, key) {
        Ok(claims) => {
            let len: usize = token.unicode_len();
            if is_on_record(revoked, token.substring_char(54, len)) {
                Err(TokenError::Revoked)
            } else {
                Ok(claims)
            }
        },
        Err(e) => Err(e),
    }
}

/// What withdrawing a token puts on record: the tag of a token that is
/// good at the moment `now`, and nothing for any other token, which is
/// refused as it is.
pub open spec fn withdrawn(token: Seq<char>, now: u64, key: Seq<char>) -> Option<Seq<char>> {
    match checked(token, now, key) {
        Ok(_) => Some(tag_of(token)),
        Err(_) => None,
    }
}

/// Decides what to put on record when a token is withdrawn.
pub fn withdraw(token: &str, now: u64, key: &str) -> (tag: Option<String>)
    ensures
        match withdrawn(token@, now, key@) {
            Some(text) => tag is Some && tag.unwrap()@ == text,
            None => tag is None,
        },
{
    match check(token, now, key) {
        Ok(_) => {
            let len: usize = token.unicode_len();
            Some(String::from_str(token.substring_char(54, len)))
        },
        Err(_) => None,
    }
}

/// Puts a tag on record.
pub fn record_withdrawal(revoked: &mut Vec<String>, tag: String)
    ensures
        final(revoked).deep_view() == old(revoked).deep_view().push(tag@),
{
    let ghost before = revoked.deep_view();
    revoked.push(tag);
    assert(revoked.deep_view() =~= before.push(tag@));
}

/// A token whose tag is on record is never good again, at no moment and
/// whatever else is on record.
pub proof fn lemma_withdrawn_token_is_refused(
    token: Seq<char>,
    now: u64,
    key: Seq<char>,
    revoked: Seq<Seq<char>>,
)
    requires
        revoked.contains(tag_of(token)),
    ensures
        checked_unless_revoked(token, now, key, revoked) is Err,
        checked(token, now, key) is Ok ==> checked_unless_revoked(token, now, key, revoked)
            == Err::<(u128, u64), TokenError>(TokenError::Revoked),
{
}

/// Withdrawing a good token and putting what it gives on record makes the
/// token `Revoked` from then on, for as long as it would have been good.
pub proof fn lemma_withdrawal_revokes(
    token: Seq<char>,
    now: u64,
    later: u64,
    key: Seq<char>,
    revoked: Seq<Seq<char>>,
)
    requires
        withdrawn(token, now, key) is Some,
        checked(token, later, key) is Ok,
    ensures
        checked_unless_revoked(token, later, key, revoked.push(withdrawn(token, now, key).unwrap()))
            == Err::<(u128, u64), TokenError>(TokenError::Revoked),
{
    let record = revoked.push(tag_of(token));
    assert(record[revoked.len() as int] == tag_of(token));
}

/// A token whose tag is not on record is judged by its form, its tag and
/// its time alone.
pub proof fn lemma_record_leaves_other_tokens(
    token: Seq<char>,
    now: u64,
    key: Seq<char>,
    revoked: Seq<Seq<char>>,
)
    requires
        !revoked.contains(tag_of(token)),
    ensures
        checked_unless_revoked(token, now, key, revoked) == checked(token, now, key),
{
}

} // verus!
