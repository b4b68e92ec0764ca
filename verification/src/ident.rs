//! Identifiers of rooms, players and messages: 128-bit numbers drawn at
//! random.

use vstd::prelude::*;

verus! {

/// The bits of an identifier that tell how it was made.
pub const KIND_MASK: u128 = 0x0000_0000_0000_f000_c000_0000_0000_0000;

/// What those bits hold in an identifier drawn at random.
pub const RANDOM_KIND: u128 = 0x0000_0000_0000_4000_8000_0000_0000_0000;

/// Whether an identifier is marked as drawn at random.
pub open spec fn is_random_id(id: u128) -> bool {
    id & KIND_MASK == RANDOM_KIND
}

/// Draws an identifier with `uuid::Uuid::new_v4` and hands it on as the
/// number that `Uuid::as_u128` gives. `new_v4` fills the value with random
/// bits and then sets the version to 4 and the variant to RFC 4122; that
/// marking is all that is claimed here.
#[verifier::external_body]
fn random_uuid() -> (id: u128)
    ensures
        is_random_id(id),
{
    uuid::Uuid::new_v4().as_u128()
}

/// A new identifier, drawn at random.
pub fn fresh_id() -> (id: u128)
    ensures
        is_random_id(id),
{
    random_uuid()
}

/// Whether an identifier is marked as drawn at random.
pub fn has_random_kind(id: u128) -> (r: bool)
    ensures
        r == is_random_id(id),
{
    id & KIND_MASK == RANDOM_KIND
}

} // verus!
