//! Article identifiers: 128-bit values, drawn at random and written as UUIDs.

use vstd::prelude::*;

verus! {

/// Whether `id` has the layout of a random (version 4, RFC 4122) UUID:
/// the version nibble is 4 and the two variant bits are `10`.
pub open spec fn is_random_layout(id: u128) -> bool {
    &&& (id >> 76u128) & 0xfu128 == 4u128
    &&& (id >> 62u128) & 0x3u128 == 2u128
}

/// Draws a fresh identifier with `uuid::Uuid::new_v4` and returns it as the
/// integer that `Uuid::as_u128` gives.
///
/// Trusted: the value is random, so the contract only claims what `new_v4`
/// fixes in every identifier, the version and variant bits. `new_v4` panics
/// when the operating system cannot supply random bytes.
#[verifier::external_body]
pub(crate) fn fresh_id() -> (id: u128)
    ensures
        is_random_layout(id),
{
    uuid::Uuid::new_v4().as_u128()
}

/// What `uuid::Uuid::parse_str` reads from `text`: the identifier, as the
/// integer that `Uuid::as_u128` gives, or `None` where it rejects the text.
pub uninterp spec fn parsed_uuid(text: Seq<char>) -> Option<u128>;

/// Reads an identifier with `uuid::Uuid::parse_str`, which takes the
/// hyphenated, the simple and the URN form.
///
/// Trusted: the contract only names the result; it claims that the same text
/// always reads the same, and nothing about which texts are taken.
#[verifier::external_body]
pub(crate) fn parse_uuid(text: &str) -> (id: Option<u128>)
    ensures
        id == parsed_uuid(text@),
{
    match uuid::Uuid::parse_str(text) {
        Ok(id) => Some(id.as_u128()),
        Err(_) => None,
    }
}

} // verus!
