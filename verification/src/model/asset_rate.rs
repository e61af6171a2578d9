//! An asset with its exchange rate.

use vstd::prelude::*;
use crate::decimal::Dec;
use crate::model::Asset;

verus! {

/// An asset and its rate in USD.
#[derive(Debug, PartialEq, Eq, Hash)]
pub struct AssetRate {
    pub asset: Asset,
    pub rate_usd: Dec,
}

impl AssetRate {
    pub fn new(asset: Asset, rate_usd: Dec) -> (r: Self)
        ensures
            r.asset == asset,
            r.rate_usd == rate_usd,
    {
        Self { asset, rate_usd }
    }
}

} // verus!
