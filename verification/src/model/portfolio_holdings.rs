//! All the holdings of a portfolio.

use vstd::prelude::*;
use crate::decimal::Dec;
use crate::model::AssetHoldingsWithDrift;

verus! {

/// The holdings of a portfolio, per asset, and its total value.
pub struct PortfolioHoldings {
    pub holdings: Vec<AssetHoldingsWithDrift>,
    pub portfolio_value_usd: Dec,
}

impl PortfolioHoldings {
    pub fn new(holdings: Vec<AssetHoldingsWithDrift>, portfolio_value_usd: Dec) -> (p: Self)
        ensures
            p.holdings == holdings,
            p.portfolio_value_usd == portfolio_value_usd,
    {
        Self { holdings, portfolio_value_usd }
    }
}

} // verus!
