//! A token identified by symbol, network and contract.

use vstd::prelude::*;
use crate::model::{Contract, Network, Symbol};

verus! {

/// A token as the price provider knows it.
#[derive(Debug)]
pub struct BlockchainAsset {
    pub symbol: Symbol,
    pub network: Network,
    pub contract: Contract,
}

impl BlockchainAsset {
    pub fn new(symbol: Symbol, network: Network, contract: Contract) -> (a: Self)
        ensures
            a.symbol == symbol,
            a.network == network,
            a.contract == contract,
    {
        Self { symbol, network, contract }
    }
}

} // verus!
