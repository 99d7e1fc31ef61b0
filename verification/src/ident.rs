//! Names for tasks: random 128-bit identifiers.

use vstd::prelude::*;

verus! {

/// An identifier has the layout of a random UUID: the version field holds 4 and the variant field
/// holds 2.
pub open spec fn is_random_uuid(id: u128) -> bool {
    &&& (id / 0x1000_0000_0000_0000_0000) % 16 == 4
    &&& (id / 0x4000_0000_0000_0000) % 4 == 2
}

/// `uuid::Uuid::new_v4`, read as a number. The bits come from the operating system's generator, so
/// nothing is claimed of them but the two fields that mark a random UUID. The call panics where
/// that generator fails.
#[verifier::external_body]
pub(crate) fn random_id() -> (id: u128)
    ensures
        is_random_uuid(id),
{
    uuid::Uuid::new_v4().as_u128()
}

} // verus!
