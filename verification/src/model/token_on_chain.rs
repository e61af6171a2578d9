//! A token's symbol with its contract.

use vstd::prelude::*;
use crate::model::{Contract, Symbol};

verus! {

/// A token's symbol and contract address.
#[derive(Debug, Eq, PartialEq, Hash)]
pub struct TokenOnChain {
    pub symbol: Symbol,
    pub contract: Contract,
}

/// The displayed form of a token: `SYMBOL(contract)`.
pub open spec fn token_on_chain_text(t: TokenOnChain) -> Seq<char> {
    t.symbol.0@ + "("@ + t.contract.0@ + ")"@
}

impl Clone for TokenOnChain {
    fn clone(&self) -> (c: Self)
        ensures
            c == *self,
    {
        TokenOnChain { symbol: self.symbol.clone(), contract: self.contract.clone() }
    }
}

impl TokenOnChain {
    pub fn new(symbol: Symbol, contract: Contract) -> (t: Self)
        ensures
            t.symbol == symbol,
            t.contract == contract,
    {
        TokenOnChain { symbol, contract }
    }

    /// The displayed form of the token.
    pub fn to_text(&self) -> (s: String)
        ensures
            s@ == token_on_chain_text(*self),
    {
        let mut s = self.symbol.to_text();
        s.append("(");
        s.append(self.contract.0.as_str());
        s.append(")");
        s
    }
}

} // verus!
