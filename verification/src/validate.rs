//! The checks on what a caller sends.
//!
//! Each request type lists the checks that failed, one line of text per
//! failed check in the order of its fields. A request with no such line is
//! valid. The checks themselves are few: the length of a text, counted in
//! characters, and the form of an e-mail address, which is left to the
//! `validator` crate.

use crate::errors::{ApiError, ApiErrorView, ErrorKind};
use validator::ValidateEmail;
use vstd::prelude::*;
use vstd::string::*;

verus! {

/// What `validator`'s `validate_email` says of a text: whether it has the
/// form of an e-mail address.
pub uninterp spec fn email_valid(text: Seq<char>) -> bool;

/// Calls `validate_email` of `validator::ValidateEmail` on the text. The
/// answer depends on the text alone.
#[verifier::external_body]
fn validate_email_text(text: &str) -> (ok: bool)
    ensures
        ok == email_valid(text@),
{
    text.validate_email()
}

/// Whether the text has at least `min` and at most `max` characters.
pub open spec fn length_within(text: Seq<char>, min: nat, max: nat) -> bool {
    min <= text.len() <= max
}

/// Whether the text has at least `min` characters.
pub open spec fn length_at_least(text: Seq<char>, min: nat) -> bool {
    min <= text.len()
}

/// Whether the text has the form of an e-mail address.
pub fn is_email(text: &str) -> (ok: bool)
    ensures
        ok == email_valid(text@),
{
    validate_email_text(text)
}

/// Whether the text has at least `min` characters.
pub fn has_length_at_least(text: &str, min: usize) -> (ok: bool)
    ensures
        ok == length_at_least(text@, min as nat),
{
    text.unicode_len() >= min
}

/// Whether the text has at least `min` and at most `max` characters.
pub fn has_length_within(text: &str, min: usize, max: usize) -> (ok: bool)
    ensures
        ok == length_within(text@, min as nat, max as nat),
{
    let n: usize = text.unicode_len();
    min <= n && n <= max
}

/// Whether a text that may be absent passes a check of its length: an
/// absent text passes, a present one needs at least `min` and at most
/// `max` characters.
pub open spec fn absent_or_within(text: Option<String>, min: nat, max: nat) -> bool {
    match text {
        Some(t) => length_within(t@, min, max),
        None => true,
    }
}

/// Whether a text that may be absent passes a check of its least length.
pub open spec fn absent_or_at_least(text: Option<String>, min: nat) -> bool {
    match text {
        Some(t) => length_at_least(t@, min),
        None => true,
    }
}

/// Checks the length of a text that may be absent.
pub fn is_absent_or_within(text: &Option<String>, min: usize, max: usize) -> (ok: bool)
    ensures
        ok == absent_or_within(*text, min as nat, max as nat),
{
    match text {
        Some(t) => has_length_within(t.as_str(), min, max),
        None => true,
    }
}

/// Checks the least length of a text that may be absent.
pub fn is_absent_or_at_least(text: &Option<String>, min: usize) -> (ok: bool)
    ensures
        ok == absent_or_at_least(*text, min as nat),
{
    match text {
        Some(t) => has_length_at_least(t.as_str(), min),
        None => true,
    }
}

/// The lines so far, and one more if the check failed.
pub open spec fn noted(lines: Seq<Seq<char>>, passed: bool, line: Seq<char>) -> Seq<Seq<char>> {
    if passed {
        lines
    } else {
        lines.push(line)
    }
}

/// Adds the line to the list if the check failed.
pub fn note(lines: &mut Vec<String>, passed: bool, line: &str)
    ensures
        final(lines).deep_view() == noted(old(lines).deep_view(), passed, line@),
{
    if !passed {
        let ghost before = lines.deep_view();
        lines.push(String::from_str(line));
        assert(lines.deep_view() =~= before.push(line@));
    }
}

/// What a list of failed checks means for the request: nothing if the list
/// is empty, a `ValidationFailed` with those lines if it is not.
pub open spec fn verdict(lines: Seq<Seq<char>>) -> Option<ApiErrorView> {
    if lines.len() == 0 {
        None
    } else {
        Some(ApiErrorView { kind: ErrorKind::ValidationFailed, lines })
    }
}

/// Turns the list of failed checks into the answer to the request.
pub fn conclude(lines: Vec<String>) -> (outcome: Result<(), ApiError>)
    ensures
        match verdict(lines.deep_view()) {
            None => outcome is Ok,
            Some(e) => outcome is Err && outcome->Err_0@ == e,
        },
{
    if lines.len() == 0 {
        assert(lines.deep_view().len() == 0);
        Ok(())
    } else {
        assert(lines.deep_view().len() == lines@.len());
        Err(ApiError::ValidationFailed(lines))
    }
}

} // verus!
