//! Points in time.
//!
//! Rows carry the moments they were made and changed as `chrono`'s
//! `NaiveDateTime`. Nothing here looks inside one: a moment is taken from
//! the clock or from a request and stored as it is.

use vstd::prelude::*;

verus! {

/// `chrono::NaiveDateTime`, a date and time without a zone.
#[verifier::external_type_specification]
#[verifier::external_body]
pub struct ExNaiveDateTime(chrono::NaiveDateTime);

/// `NaiveDateTime` is `Copy`, and what `derive` wrote as its `clone` is the
/// copy.
pub assume_specification[ <chrono::NaiveDateTime as Clone>::clone ](
    moment: &chrono::NaiveDateTime,
) -> (copy: chrono::NaiveDateTime)
    ensures
        copy == *moment,
;

/// Calls `chrono::Utc::now` and drops the zone (`naive_utc`). Nothing is
/// known of the moment that comes back. The call panics on a machine whose
/// clock stands before 1970, and on no other.
#[verifier::external_body]
pub(crate) fn now() -> (moment: chrono::NaiveDateTime) {
    chrono::Utc::now().naive_utc()
}

} // verus!
