//! An asset with its price.

use vstd::prelude::*;
use crate::decimal::Dec;
use crate::model::Asset;

verus! {

/// An asset and its price in USD.
#[derive(Debug, PartialEq, Eq, Hash)]
pub struct AssetPrice {
    pub asset: Asset,
    pub price_usd: Dec,
}

impl AssetPrice {
    pub fn new(asset: Asset, price_usd: Dec) -> (p: Self)
        ensures
            p.asset == asset,
            p.price_usd == price_usd,
    {
        Self { asset, price_usd }
    }
}

} // verus!
