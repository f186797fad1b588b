//! Ship identifiers.
//!
//! A ship is known by a 128-bit identifier: the value of a version 4 UUID,
//! most significant byte first.

use vstd::prelude::*;

verus! {

/// The bits that every version 4 UUID of the RFC 4122 variant has in common:
/// the version nibble is 4 and the two variant bits are `10`.
pub open spec fn is_random_uuid(id: u128) -> bool {
    id & 0x0000_0000_0000_f000_c000_0000_0000_0000u128
        == 0x0000_0000_0000_4000_8000_0000_0000_0000u128
}

/// Draws a new identifier: `uuid::Uuid::new_v4`, read out with
/// `Uuid::as_u128`.
///
/// Trusted. The value is random, so the contract states only what `new_v4`
/// fixes in every identifier it makes, the version and variant bits. Two
/// calls may return the same value; nothing here rules that out. `new_v4`
/// panics if the operating system cannot supply random bytes.
#[verifier::external_body]
pub(crate) fn fresh_ship_id() -> (id: u128)
    ensures
        is_random_uuid(id),
{
    uuid::Uuid::new_v4().as_u128()
}

} // verus!
