//! Identifiers and timestamps, which come from the `uuid` and `chrono` crates.
//!
//! An identifier is held as the 128-bit value of its UUID. The functions of
//! this module with `external_body` are believed, not proved: each doc comment
//! says what is claimed of the crate's function.

use vstd::prelude::*;

verus! {

/// What `uuid::Uuid::try_parse` makes of a text: the 128-bit value
/// (`Uuid::as_u128`) of the identifier that it reads, or `None` where it
/// refuses the text.
pub uninterp spec fn uuid_parsed(text: Seq<char>) -> Option<u128>;

/// The text that `Uuid`'s `Display` gives for the identifier with the 128-bit
/// value `value`: its lower-case hyphenated form.
pub uninterp spec fn uuid_hyphenated(value: u128) -> Seq<char>;

/// The version and variant bits of a random (version 4) UUID.
pub open spec fn is_random_uuid(value: u128) -> bool {
    value & 0xF000_C000_0000_0000_0000u128 == 0x4000_8000_0000_0000_0000u128
}

/// Calls `uuid::Uuid::try_parse` and takes the value with `Uuid::as_u128`.
/// Claimed: the result is a function of the text alone, named `uuid_parsed`.
#[verifier::external_body]
pub(crate) fn parse_uuid(text: &str) -> (r: Option<u128>)
    ensures
        r == uuid_parsed(text@),
{
    match uuid::Uuid::try_parse(text) {
        Ok(id) => Some(id.as_u128()),
        Err(_) => None,
    }
}

/// Calls `uuid::Uuid::new_v4` and takes the value with `Uuid::as_u128`.
/// Claimed: whatever the random bits, the version nibble is 4 and the variant
/// bits are `10`, as `new_v4` masks them in. `new_v4` panics where the
/// operating system hands out no random bytes.
#[verifier::external_body]
pub(crate) fn fresh_uuid() -> (r: u128)
    ensures
        is_random_uuid(r),
{
    uuid::Uuid::new_v4().as_u128()
}

/// Calls `to_string` on `uuid::Uuid::from_u128(value)`.
/// Claimed: the text is a function of the value alone, named `uuid_hyphenated`.
#[verifier::external_body]
pub(crate) fn uuid_text(value: u128) -> (r: String)
    ensures
        r@ == uuid_hyphenated(value),
{
    uuid::Uuid::from_u128(value).to_string()
}

/// Calls `chrono::Utc::now` and `DateTime::to_rfc3339` on its result.
/// Nothing is claimed of the text: it depends on the clock. `Utc::now` panics
/// where the system clock stands before 1970.
#[verifier::external_body]
pub(crate) fn now_rfc3339() -> (r: String) {
    chrono::Utc::now().to_rfc3339()
}

/// Whether a text is the hyphenated form of some random UUID.
pub open spec fn is_fresh_id(text: Seq<char>) -> bool {
    exists|value: u128| is_random_uuid(value) && text == #[trigger] uuid_hyphenated(value)
}

/// A new random identifier, as text.
pub fn fresh_id() -> (r: String)
    ensures
        is_fresh_id(r@),
{
    let value: u128 = fresh_uuid();
    uuid_text(value)
}

/// Whether two texts hold the same characters.
pub fn same_text(a: &str, b: &str) -> (r: bool)
    ensures
        r == (a@ == b@),
{
    let left: String = a.to_owned();
    let right: String = b.to_owned();
    left == right
}

} // verus!
