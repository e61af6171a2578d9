//! The portfolio as the API returns it.

use vstd::prelude::*;
use crate::model::{AssetAllocation, PortfolioHoldings, PortfolioValueAt};

verus! {

/// A user's portfolio: expected allocations, current holdings and history.
pub struct PortfolioResponse {
    pub expected_asset_allocations: Vec<AssetAllocation>,
    pub holdings: PortfolioHoldings,
    pub historical_portfolio_value: Vec<PortfolioValueAt>,
}

impl PortfolioResponse {
    pub fn new(
        expected_asset_allocations: Vec<AssetAllocation>,
        holdings: PortfolioHoldings,
        historical_portfolio_value: Vec<PortfolioValueAt>,
    ) -> (p: Self)
        ensures
            p.expected_asset_allocations == expected_asset_allocations,
            p.holdings == holdings,
            p.historical_portfolio_value == historical_portfolio_value,
    {
        Self { expected_asset_allocations, holdings, historical_portfolio_value }
    }
}

} // verus!
