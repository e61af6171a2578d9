//! The share of a portfolio that a user expects an asset to take.

use vstd::prelude::*;
use crate::decimal::Dec;
use crate::model::ids::AssetId;
use crate::model::{Asset, Contract, Network, Symbol};

verus! {

/// An asset and the percentage of the portfolio expected for it.
#[derive(Debug, PartialEq)]
pub struct AssetAllocation {
    pub asset: Asset,
    pub allocation_pct: Dec,
}

impl AssetAllocation {
    pub fn new(
        id: AssetId,
        symbol: Symbol,
        name: String,
        network: Network,
        contract: Contract,
        allocation_pct: Dec,
    ) -> (a: Self)
        ensures
            a.asset.id == id,
            a.asset.symbol == symbol,
            a.asset.name == name,
            a.asset.network == network,
            a.asset.contract_address == contract,
            a.allocation_pct == allocation_pct,
    {
        Self { asset: Asset::new(id, symbol, name, network, contract), allocation_pct }
    }
}

} // verus!
