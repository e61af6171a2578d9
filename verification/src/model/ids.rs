//! Identifiers of users, assets, holdings and outbox events: UUIDs held as
//! their 128-bit big-endian value.

use vstd::prelude::*;

verus! {

/// Whether a 128-bit UUID value carries version 4 and the RFC 4122 variant.
pub open spec fn is_uuid_v4(bits: u128) -> bool {
    &&& bits & 0xF000_0000_0000_0000_0000u128 == 0x4000_0000_0000_0000_0000u128
    &&& bits & 0xC000_0000_0000_0000u128 == 0x8000_0000_0000_0000u128
}

/// A fresh random UUID from uuid's `Uuid::new_v4`, as its `as_u128` value.
///
/// The value is random; the contract states only the version and variant
/// bits that `new_v4` always sets.
#[verifier::external_body]
fn random_uuid_v4() -> (bits: u128)
    ensures
        is_uuid_v4(bits),
{
    uuid::Uuid::new_v4().as_u128()
}

/// The identifier of a user.
#[derive(Debug, PartialEq, Eq, Hash, Clone, Copy, Structural)]
pub struct UserId(pub u128);

/// The identifier of an asset.
#[derive(Debug, PartialEq, Eq, Hash, Clone, Copy, Structural)]
pub struct AssetId(pub u128);

/// The identifier of a holding.
#[derive(Debug, PartialEq, Eq, Hash, Clone, Copy, Structural)]
pub struct HoldingId(pub u128);

/// The identifier of an outbox event.
#[derive(Debug, PartialEq, Eq, Hash, Clone, Copy, Structural)]
pub struct OutboxEventId(pub u128);

impl AssetId {
    /// A fresh random asset identifier.
    pub fn new() -> (id: AssetId)
        ensures
            is_uuid_v4(id.0),
    {
        AssetId(random_uuid_v4())
    }
}

impl HoldingId {
    /// A fresh random holding identifier.
    pub fn new() -> (id: HoldingId)
        ensures
            is_uuid_v4(id.0),
    {
        HoldingId(random_uuid_v4())
    }
}

} // verus!
