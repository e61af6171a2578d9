//! Rows as they are read from storage.

use vstd::prelude::*;
use crate::decimal::Dec;
use crate::model::ids::{AssetId, HoldingId, OutboxEventId};
use crate::model::{Contract, Symbol, Timestamp};

verus! {

/// A stored asset; the network is its stored identifier.
pub struct BlockchainAssetDTO {
    pub id: AssetId,
    pub symbol: Symbol,
    pub name: String,
    pub network: String,
    pub contract_address: Contract,
}

/// A stored expected allocation joined with its asset.
pub struct AssetAllocationDTO {
    pub id: AssetId,
    pub symbol: Symbol,
    pub name: String,
    pub network: String,
    pub contract_address: Contract,
    /// A percentage.
    pub allocation: Dec,
}

/// A stored holding joined with its asset and the asset's latest rate.
pub struct HoldingDTO {
    pub id: HoldingId,
    pub asset_id: AssetId,
    pub symbol: Symbol,
    pub name: String,
    pub network: String,
    pub contract_address: Contract,
    pub amount: Dec,
    pub description: Option<String>,
    pub rate_usd: Dec,
}

/// A stored outbox event; the type is its stored name.
pub struct OutboxEventDTO {
    pub id: OutboxEventId,
    pub event_type: String,
    pub created_at: Timestamp,
    pub handled_at: Option<Timestamp>,
}

} // verus!
