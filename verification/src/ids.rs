//! The ids of bots, users and conversations: UUIDs, held as their 128-bit
//! values.

use vstd::prelude::*;
use vstd::string::*;
use crate::errors::{BerylliumError, BerylliumResult};

verus! {

/// The value of the UUID that `uuid::Uuid::parse_str` reads from the text,
/// or `None` where it rejects the text.
pub uninterp spec fn uuid_value(text: Seq<char>) -> Option<u128>;

/// The text that `uuid::Uuid` writes for the UUID with the value: lower
/// case, hyphenated.
pub uninterp spec fn uuid_text(value: u128) -> Seq<char>;

/// The error of `uuid::Uuid::parse_str`, carried as it is.
#[verifier::external_type_specification]
#[verifier::external_body]
pub struct ExUuidError(uuid::Error);

/// Calls `uuid::Uuid::parse_str` and hands back the 128-bit value of the
/// UUID that it read. Whether the text is accepted, and the value read,
/// depend on the text alone.
#[verifier::external_body]
fn parse_uuid(text: &str) -> (r: Result<u128, uuid::Error>)
    ensures
        match r {
            Ok(v) => uuid_value(text@) == Some(v),
            Err(_) => uuid_value(text@).is_none(),
        },
{
    uuid::Uuid::parse_str(text).map(|u| u.as_u128())
}

/// Calls `uuid::Uuid::from_u128` and writes the UUID with `to_string`. The
/// text depends on the value alone.
#[verifier::external_body]
pub(crate) fn format_id(value: u128) -> (r: String)
    ensures
        r@ == uuid_text(value),
{
    uuid::Uuid::from_u128(value).to_string()
}

/// Reads an id from its text. Text that is no UUID is an error.
pub fn parse_id(text: &str) -> (r: BerylliumResult<u128>)
    ensures
        match uuid_value(text@) {
            Some(v) => r == Ok::<u128, BerylliumError>(v),
            None => r matches Err(e) && e is Uuid,
        },
{
    match parse_uuid(text) {
        Ok(v) => Ok(v),
        Err(e) => Err(BerylliumError::Uuid(e.to_string())),
    }
}

} // verus!
