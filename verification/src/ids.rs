//! Identifiers of entities.
//!
//! Every row is known by a UUID, kept in storage as text. The library
//! holds one as its 128-bit value and leaves reading, writing and drawing
//! them to the `uuid` crate.

use vstd::prelude::*;

verus! {

/// What `uuid::Uuid::parse_str` makes of a text: the 128-bit value of the
/// UUID it reads, or `None` where it reports an error.
pub uninterp spec fn uuid_parse(text: Seq<char>) -> Option<u128>;

/// The `k`-th of the 32 nibbles of a value, the highest first.
pub open spec fn nibble(value: u128, k: int) -> int {
    ((value as int) / vstd::arithmetic::power::pow(16, (31 - k) as nat)) % 16
}

/// How many of the four hyphens stand before position `i` of the text.
pub open spec fn hyphens_before(i: int) -> int {
    if i < 8 {
        0
    } else if i < 13 {
        1
    } else if i < 18 {
        2
    } else if i < 23 {
        3
    } else {
        4
    }
}

/// The canonical text of a UUID: 32 lower-case hexadecimal digits, the
/// highest first, in groups of 8, 4, 4, 4 and 12 with a hyphen between two
/// groups.
pub open spec fn hyphenated(value: u128) -> Seq<char> {
    Seq::new(
        36,
        |i: int|
            if i == 8 || i == 13 || i == 18 || i == 23 {
                '-'
            } else {
                crate::hex::digit_of(nibble(value, i - hyphens_before(i)))
            },
    )
}

/// A UUID.
#[derive(Clone, Copy, Debug, PartialEq, Eq, Hash, Structural)]
pub struct Uuid {
    /// The 128 bits of the UUID as one number, the first byte highest.
    pub value: u128,
}

impl View for Uuid {
    type V = u128;

    open spec fn view(&self) -> u128 {
        self.value
    }
}

/// Calls `uuid::Uuid::parse_str` and takes the 128-bit value of what it
/// read (`as_u128`); an error becomes `None`. The parser reads the text and
/// nothing else.
#[verifier::external_body]
fn parse_uuid_text(text: &str) -> (value: Option<u128>)
    ensures
        value == uuid_parse(text@),
{
    match uuid::Uuid::parse_str(text) {
        Ok(id) => Some(id.as_u128()),
        Err(_) => None,
    }
}

/// Calls `to_string` on the `uuid::Uuid` of the value (`from_u128`). The
/// crate's `Display` writes the lower-case hyphenated form, and its parser
/// reads that form back to the same value.
#[verifier::external_body]
fn uuid_text(value: u128) -> (text: String)
    ensures
        text@ == hyphenated(value),
        uuid_parse(text@) == Some(value),
{
    uuid::Uuid::from_u128(value).to_string()
}

/// Calls `uuid::Uuid::new_v4` and takes its 128-bit value. The value is
/// random but for six bits: the version nibble is 4 and the variant bits
/// are `10`. The call panics where the system gives no random bytes, and
/// nowhere else.
#[verifier::external_body]
fn random_uuid_value() -> (value: u128)
    ensures
        is_version_4(value),
{
    uuid::Uuid::new_v4().as_u128()
}

/// Whether the value has the fixed bits of a random UUID: version 4 in
/// the 13th nibble, and `10` as the two highest bits of the 17th.
pub open spec fn is_version_4(value: u128) -> bool {
    nibble(value, 12) == 4 && nibble(value, 16) / 4 == 2
}

impl Uuid {
    /// The UUID with the given 128-bit value.
    pub fn from_u128(value: u128) -> (id: Uuid)
        ensures
            id@ == value,
    {
        Uuid { value }
    }

    /// The 128-bit value of the UUID.
    pub fn as_u128(&self) -> (value: u128)
        ensures
            value == self@,
    {
        self.value
    }

    /// The UUID whose bits are all zero.
    pub fn nil() -> (id: Uuid)
        ensures
            id@ == 0,
    {
        Uuid { value: 0 }
    }

    /// A fresh random UUID. Nothing is known of it but its version.
    pub fn new_v4() -> (id: Uuid)
        ensures
            is_version_4(id@),
    {
        Uuid { value: random_uuid_value() }
    }

    /// Reads a UUID from text, in any of the forms the `uuid` crate reads.
    pub fn parse_str(text: &str) -> (id: Option<Uuid>)
        ensures
            id is Some <==> uuid_parse(text@) is Some,
            id is Some ==> id.unwrap()@ == uuid_parse(text@).unwrap(),
    {
        match parse_uuid_text(text) {
            Some(value) => Some(Uuid { value }),
            None => None,
        }
    }

    /// The canonical text of the UUID. Reading it back gives the same UUID.
    pub fn to_string(&self) -> (text: String)
        ensures
            text@ == hyphenated(self@),
            text@.len() == 36,
            uuid_parse(text@) == Some(self@),
    {
        uuid_text(self.value)
    }
}

} // verus!
