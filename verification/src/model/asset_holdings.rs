//! What a user holds of one asset.

use vstd::prelude::*;
use crate::decimal::Dec;
use crate::model::AssetRate;
use crate::model::ids::HoldingId;

verus! {

/// One holding: an amount of an asset and its value.
#[derive(PartialEq, Debug)]
pub struct Holding {
    pub id: HoldingId,
    pub amount: Dec,
    pub value_usd: Dec,
    pub description: Option<String>,
}

impl Holding {
    pub fn new(id: HoldingId, amount: Dec, value_usd: Dec, description: Option<String>) -> (h: Self)
        ensures
            h.id == id,
            h.amount == amount,
            h.value_usd == value_usd,
            h.description == description,
    {
        Self { id, amount, value_usd, description }
    }
}

/// All holdings of one asset, with the asset's rate and their total value.
#[derive(PartialEq, Debug)]
pub struct AssetHoldings {
    pub asset_rate: AssetRate,
    pub total_value_usd: Dec,
    pub holdings: Vec<Holding>,
}

impl AssetHoldings {
    pub fn new(asset_rate: AssetRate, total_value_usd: Dec, holdings: Vec<Holding>) -> (h: Self)
        ensures
            h.asset_rate == asset_rate,
            h.total_value_usd == total_value_usd,
            h.holdings == holdings,
    {
        Self { asset_rate, total_value_usd, holdings }
    }
}

} // verus!
