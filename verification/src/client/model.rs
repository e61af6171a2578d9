//! Rates as the client hands them to the rest of the application.

use vstd::prelude::*;
use crate::decimal::{Dec, decimal_display};
use crate::model::network::network_display_name;
use crate::model::{Contract, Network, Symbol};

verus! {

/// The rate in USD of a token on a network.
#[derive(Debug, PartialEq, Eq, Hash)]
pub struct BlockchainAssetRate {
    pub symbol: Symbol,
    pub name: String,
    pub network: Network,
    pub contract: Contract,
    pub rate: Dec,
}

impl BlockchainAssetRate {
    pub fn new(symbol: Symbol, name: String, network: Network, contract: Contract, rate: Dec) -> (r: Self)
        ensures
            r.symbol == symbol,
            r.name == name,
            r.network == network,
            r.contract == contract,
            r.rate == rate,
    {
        Self { symbol, name, network, contract, rate }
    }
}

impl Clone for BlockchainAssetRate {
    fn clone(&self) -> (c: Self)
        ensures
            c == *self,
    {
        BlockchainAssetRate {
            symbol: self.symbol.clone(),
            name: self.name.clone(),
            network: self.network,
            contract: self.contract.clone(),
            rate: self.rate,
        }
    }
}

/// The rates returned for the tokens of one network.
#[derive(Debug)]
pub struct GetRatesFromNetworkResponse {
    pub rates: Vec<BlockchainAssetRate>,
}

/// The line describing one rate: `SYMBOL Network(contract): rate`.
pub open spec fn rate_line(r: BlockchainAssetRate) -> Seq<char> {
    r.symbol.0@ + " "@ + network_display_name(r.network) + "("@ + r.contract.0@ + "): "@
        + decimal_display(r.rate.mantissa_spec() as int, r.rate.scale_spec() as nat) + "\n"@
}

/// The lines describing the rates, one per rate, in order.
pub open spec fn rates_text(rates: Seq<BlockchainAssetRate>) -> Seq<char>
    decreases rates.len(),
{
    if rates.len() == 0 {
        Seq::empty()
    } else {
        rates_text(rates.drop_last()) + rate_line(rates.last())
    }
}

impl GetRatesFromNetworkResponse {
    /// One line per rate, as the response is displayed.
    pub fn to_text(&self) -> (s: String)
        ensures
            s@ == rates_text(self.rates@),
    {
        let mut s = String::new();
        let mut i: usize = 0;
        while i < self.rates.len()
            invariant
                i <= self.rates@.len(),
                s@ == rates_text(self.rates@.take(i as int)),
            decreases self.rates.len() - i,
        {
            let r = &self.rates[i];
            proof {
                assert(self.rates@.take(i + 1).drop_last() =~= self.rates@.take(i as int));
            }
            s.append(r.symbol.0.as_str());
            s.append(" ");
            s.append(r.network.display_name());
            s.append("(");
            s.append(r.contract.0.as_str());
            s.append("): ");
            let rate = r.rate.to_text();
            s.append(rate.as_str());
            s.append("\n");
            i = i + 1;
        }
        assert(self.rates@.take(self.rates@.len() as int) =~= self.rates@);
        s
    }
}

} // verus!
