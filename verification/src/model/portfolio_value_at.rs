//! The value of a portfolio at a point in time.

use vstd::prelude::*;
use crate::decimal::Dec;
use crate::model::Timestamp;

verus! {

/// A portfolio's value in USD at a point in time.
#[derive(PartialEq, Debug)]
pub struct PortfolioValueAt {
    pub value_usd: Dec,
    pub at: Timestamp,
}

impl PortfolioValueAt {
    pub fn new(value_usd: Dec, at: Timestamp) -> (v: Self)
        ensures
            v.value_usd == value_usd,
            v.at == at,
    {
        Self { value_usd, at }
    }
}

} // verus!
