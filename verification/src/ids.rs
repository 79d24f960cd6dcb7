//! The identifiers of sandboxes, processes and snapshots: 128 bits each, and their text.

use crate::numbers::hex_digits;
use crate::text::err_view;
use vstd::prelude::*;

verus! {

/// The text of an identifier: 32 hexadecimal digits in groups of 8, 4, 4, 4 and 12.
pub open spec fn hyphenated(id: u128) -> Seq<char> {
    let h = hex_digits(id as nat, 32);
    h.subrange(0, 8) + "-"@ + h.subrange(8, 12) + "-"@ + h.subrange(12, 16) + "-"@ + h.subrange(
        16,
        20,
    ) + "-"@ + h.subrange(20, 32)
}

/// The identifier that a text stands for, or what is wrong with it.
pub uninterp spec fn uuid_parsed(text: Seq<char>) -> Result<u128, Seq<char>>;

/// The four bits of the version and the two of the variant are those of a random UUID.
pub open spec fn is_random_id(id: u128) -> bool {
    (id >> 76) & 0xf == 4 && (id >> 62) & 3 == 2
}

/// `uuid::Uuid::new_v4`: a random identifier. Whatever the random bits are, the version and the
/// variant are those of a random UUID. That no two of them are the same is left unsaid.
#[verifier::external_body]
pub(crate) fn random_id() -> (r: u128)
    ensures
        is_random_id(r),
{
    uuid::Uuid::new_v4().as_u128()
}

/// The `Display` of `uuid::Uuid`: its hexadecimal digits in lower case, with hyphens.
#[verifier::external_body]
pub(crate) fn id_text(id: u128) -> (r: String)
    ensures
        r@ == hyphenated(id),
{
    uuid::Uuid::from_u128(id).to_string()
}

/// `uuid::Uuid::parse_str`, with the error as its text. It reads back the hyphenated text of
/// every identifier.
#[verifier::external_body]
pub(crate) fn parse_id(text: &str) -> (r: Result<u128, String>)
    ensures
        err_view(r) == uuid_parsed(text@),
        r matches Ok(v) ==> (forall|id: u128| text@ == #[trigger] hyphenated(id) ==> v == id),
        r is Err ==> (forall|id: u128| text@ != #[trigger] hyphenated(id)),
{
    uuid::Uuid::parse_str(text).map(|id| id.as_u128()).map_err(|e| e.to_string())
}

/// A random identifier is not the nil one.
pub proof fn random_ids_are_not_nil(id: u128)
    requires
        is_random_id(id),
    ensures
        id != 0,
{
    assert((id >> 76) & 0xf == 4 ==> id != 0) by (bit_vector);
}

} // verus!
