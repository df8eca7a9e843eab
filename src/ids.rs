//! Identifiers from `uuid`, held as `u128`.

use vstd::prelude::*;

verus! {

/// The hyphenated lower-case text of the UUID with value `id`.
pub uninterp spec fn uuid_text(id: u128) -> Seq<char>;

/// Relies on `uuid::Uuid::new_v4`: a random version 4 id. Nothing is promised
/// of its value.
#[verifier::external_body]
pub(crate) fn random_id() -> u128 {
    uuid::Uuid::new_v4().as_u128()
}

/// Relies on `uuid::Uuid::now_v7`: a time-ordered version 7 id. Nothing is
/// promised of its value.
#[verifier::external_body]
pub(crate) fn time_ordered_id() -> u128 {
    uuid::Uuid::now_v7().as_u128()
}

/// Relies on the `Display` of `uuid::Uuid`: the hyphenated text of an id,
/// which depends on the id alone.
#[verifier::external_body]
pub(crate) fn format_uuid(id: u128) -> (r: String)
    ensures
        r@ == uuid_text(id),
{
    uuid::Uuid::from_u128(id).to_string()
}

} // verus!
