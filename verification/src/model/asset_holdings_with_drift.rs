//! Holdings compared with the expected allocation.

use vstd::prelude::*;
use crate::decimal::Dec;
use crate::model::AssetRate;
use crate::model::ids::HoldingId;

verus! {

/// A holding with the share of the portfolio it takes.
#[derive(PartialEq, Debug)]
pub struct HoldingWithAllocation {
    pub id: HoldingId,
    pub amount: Dec,
    pub value_usd: Dec,
    pub description: Option<String>,
    pub current_allocation_pct: Dec,
}

impl HoldingWithAllocation {
    pub fn new(
        id: HoldingId,
        amount: Dec,
        value_usd: Dec,
        description: Option<String>,
        current_allocation_pct: Dec,
    ) -> (h: Self)
        ensures
            h.id == id,
            h.amount == amount,
            h.value_usd == value_usd,
            h.description == description,
            h.current_allocation_pct == current_allocation_pct,
    {
        Self { id, amount, value_usd, description, current_allocation_pct }
    }
}

/// The holdings of one asset with their allocation and its drift from the
/// expected allocation.
#[derive(PartialEq, Debug)]
pub struct AssetHoldingsWithDrift {
    pub asset_rate: AssetRate,
    pub total_value_usd: Dec,
    pub holdings: Vec<HoldingWithAllocation>,
    pub total_allocation_pct: Dec,
    pub expected_allocation_pct: Dec,
    pub drift_pct: Dec,
}

impl AssetHoldingsWithDrift {
    pub fn new(
        asset_rate: AssetRate,
        total_value_usd: Dec,
        holdings: Vec<HoldingWithAllocation>,
        total_allocation_pct: Dec,
        expected_allocation_pct: Dec,
        drift_pct: Dec,
    ) -> (h: Self)
        ensures
            h.asset_rate == asset_rate,
            h.total_value_usd == total_value_usd,
            h.holdings == holdings,
            h.total_allocation_pct == total_allocation_pct,
            h.expected_allocation_pct == expected_allocation_pct,
            h.drift_pct == drift_pct,
    {
        Self {
            asset_rate,
            total_value_usd,
            holdings,
            total_allocation_pct,
            expected_allocation_pct,
            drift_pct,
        }
    }
}

} // verus!
