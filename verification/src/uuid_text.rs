//! The calls into the `uuid` crate, on plain values: a UUID is held as its
//! 128-bit number, and a string as its characters.

use vstd::prelude::*;

verus! {

/// The UUID that `text` denotes in one of the textual forms the `uuid`
/// crate accepts, or `None` where `text` is no UUID.
pub uninterp spec fn uuid_parsed(text: Seq<char>) -> Option<u128>;

/// The version-5 (SHA-1) UUID of `name` under the namespace `namespace`.
pub uninterp spec fn uuid_v5(namespace: u128, name: Seq<char>) -> u128;

/// The canonical text of a UUID: lower-case hexadecimal digits in five
/// hyphen-separated groups.
pub uninterp spec fn uuid_text(value: u128) -> Seq<char>;

/// `uuid::Uuid::parse_str`, with the UUID handed back as its number
/// (`Uuid::as_u128`). The result is the one named by [`uuid_parsed`]; text
/// that is no UUID gives `None`.
#[verifier::external_body]
pub(crate) fn parse_uuid(text: &str) -> (r: Option<u128>)
    ensures
        r == uuid_parsed(text@),
{
    match uuid::Uuid::parse_str(text) {
        Ok(u) => Some(u.as_u128()),
        Err(_) => None,
    }
}

/// `uuid::Uuid::new_v5` with the namespace given as its number and the
/// UTF-8 bytes of `name`: a function of the two alone, as its number. The
/// result is the one named by [`uuid_v5`].
#[verifier::external_body]
pub(crate) fn hash_uuid(namespace: u128, name: &str) -> (r: u128)
    ensures
        r == uuid_v5(namespace, name@),
{
    uuid::Uuid::new_v5(&uuid::Uuid::from_u128(namespace), name.as_bytes()).as_u128()
}

/// `Display` of `uuid::Uuid` (through `Uuid::from_u128`): the hyphenated
/// lower-case form, 36 characters long, which `Uuid::parse_str` reads back
/// as the same UUID. The result is the one named by [`uuid_text`].
#[verifier::external_body]
pub(crate) fn format_uuid(value: u128) -> (r: String)
    ensures
        r@ == uuid_text(value),
        r@.len() == 36,
        uuid_parsed(r@) == Some(value),
{
    uuid::Uuid::from_u128(value).to_string()
}

/// Whether `value` is a UUID of version 4, the random kind, in the layout
/// of RFC 9562: the version field holds 4 and the variant field the bits
/// `10`. The other 122 bits are free.
pub open spec fn is_v4_uuid(value: u128) -> bool {
    value & 0xF000_C000_0000_0000_0000u128 == 0x4000_8000_0000_0000_0000u128
}

/// `uuid::Uuid::new_v4`, as its number: a random UUID. Whatever the random
/// bits are, the crate sets the version field to 4 and the variant field
/// to the one of RFC 9562; nothing is claimed of the other bits.
#[verifier::external_body]
pub(crate) fn random_uuid() -> (r: u128)
    ensures
        is_v4_uuid(r),
{
    uuid::Uuid::new_v4().as_u128()
}

} // verus!
