//! Notification identifiers: UUIDs, held as the 128-bit number that the text
//! form spells in hexadecimal, first digit first.

use vstd::prelude::*;
use crate::error::ApplicationError;

verus! {

/// The identifier that `uuid::Uuid::parse_str` reads from a text, as a 128-bit
/// number, or `None` where it rejects the text.
pub uninterp spec fn uuid_parsed(text: Seq<char>) -> Option<u128>;

/// The text that `uuid::Uuid` displays for the identifier with this number.
pub uninterp spec fn uuid_text(value: u128) -> Seq<char>;

/// The version and variant fields of the identifier say "version 4, RFC
/// variant": the form of every randomly generated UUID.
pub open spec fn is_version_four(value: u128) -> bool {
    value & 0x0000_0000_0000_f000_c000_0000_0000_0000u128
        == 0x0000_0000_0000_4000_8000_0000_0000_0000u128
}

/// Calls `uuid::Uuid::parse_str` and hands back the identifier's number, or
/// `None` for a text that the parser rejects. The parser is a function of the
/// text alone; which texts it accepts is left to it.
#[verifier::external_body]
fn parse_uuid(text: &str) -> (r: Option<u128>)
    ensures
        r == uuid_parsed(text@),
{
    match uuid::Uuid::parse_str(text) {
        Ok(parsed) => Some(parsed.as_u128()),
        Err(_) => None,
    }
}

/// Displays the identifier with `uuid::Uuid`'s `to_string`: the hyphenated
/// form, which is 36 characters long and which `uuid::Uuid::parse_str` reads
/// back as the same identifier.
#[verifier::external_body]
fn format_uuid(value: u128) -> (r: String)
    ensures
        r@ == uuid_text(value),
        r@.len() == 36,
        uuid_parsed(r@) == Some(value),
{
    uuid::Uuid::from_u128(value).to_string()
}

/// Draws a random identifier with `uuid::Uuid::new_v4`. Which one is not
/// known; every outcome carries the version and variant bits that `new_v4`
/// sets.
#[verifier::external_body]
pub(crate) fn random_uuid() -> (r: u128)
    ensures
        is_version_four(r),
{
    uuid::Uuid::new_v4().as_u128()
}

/// What reading an identifier yields, given what the UUID parser made of the
/// text: the identifier, or `InvalidInput`.
pub fn id_from_parsed(parsed: Option<u128>) -> (r: Result<u128, ApplicationError>)
    ensures
        match parsed {
            Some(id) => r == Ok::<u128, ApplicationError>(id),
            None => r is Err && r->Err_0 is InvalidInput,
        },
{
    match parsed {
        Some(id) => Ok(id),
        None => Err(ApplicationError::InvalidInput("malformed notification identifier".to_owned())),
    }
}

/// Reads an identifier from its text form. Fails with `InvalidInput` exactly
/// when the text is no UUID.
pub fn parse_id(text: &str) -> (r: Result<u128, ApplicationError>)
    ensures
        match uuid_parsed(text@) {
            Some(id) => r == Ok::<u128, ApplicationError>(id),
            None => r is Err && r->Err_0 is InvalidInput,
        },
{
    id_from_parsed(parse_uuid(text))
}

/// The text form of an identifier. `parse_id` reads it back.
pub fn id_to_string(id: u128) -> (r: String)
    ensures
        r@ == uuid_text(id),
        r@.len() == 36,
        uuid_parsed(r@) == Some(id),
{
    format_uuid(id)
}

} // verus!
