//! Assets: a token on a given network.

use vstd::prelude::*;
use crate::model::ids::AssetId;
use crate::model::network::{Network, network_display_name};
use crate::model::{Contract, Symbol};

verus! {

/// A tracked asset.
#[derive(Debug, PartialEq, Eq, Hash)]
pub struct Asset {
    pub id: AssetId,
    pub symbol: Symbol,
    pub name: String,
    pub network: Network,
    pub contract_address: Contract,
}

/// Whether two assets denote the same token: same symbol, network and
/// contract address, whatever their identifiers and names.
pub open spec fn same_asset(a: Asset, b: Asset) -> bool {
    &&& a.symbol.0@ == b.symbol.0@
    &&& a.network == b.network
    &&& a.contract_address.0@ == b.contract_address.0@
}

/// The displayed form of an asset: `SYMBOL: Network(contract)`.
pub open spec fn asset_text(a: Asset) -> Seq<char> {
    a.symbol.0@ + ": "@ + network_display_name(a.network) + "("@ + a.contract_address.0@ + ")"@
}

impl Clone for Asset {
    fn clone(&self) -> (c: Self)
        ensures
            c == *self,
    {
        Asset {
            id: self.id,
            symbol: self.symbol.clone(),
            name: self.name.clone(),
            network: self.network,
            contract_address: self.contract_address.clone(),
        }
    }
}

impl Asset {
    pub fn new(
        id: AssetId,
        symbol: Symbol,
        name: String,
        network: Network,
        contract_address: Contract,
    ) -> (a: Self)
        ensures
            a.id == id,
            a.symbol == symbol,
            a.name == name,
            a.network == network,
            a.contract_address == contract_address,
    {
        Self { id, symbol, name, network, contract_address }
    }

    /// Whether `other` denotes the same token; identifiers are not compared.
    pub fn is_same_asset(&self, other: &Self) -> (r: bool)
        ensures
            r == same_asset(*self, *other),
    {
        self.symbol.0 == other.symbol.0 && self.network == other.network
            && self.contract_address.0 == other.contract_address.0
    }

    /// The displayed form of the asset.
    pub fn to_text(&self) -> (s: String)
        ensures
            s@ == asset_text(*self),
    {
        let mut s = self.symbol.to_text();
        s.append(": ");
        s.append(self.network.display_name());
        s.append("(");
        s.append(self.contract_address.0.as_str());
        s.append(")");
        s
    }
}

/// Being the same asset is an equivalence relation that ignores identifiers
/// and names.
pub proof fn lemma_same_asset_equivalence(a: Asset, b: Asset, c: Asset)
    ensures
        same_asset(a, a),
        same_asset(a, b) ==> same_asset(b, a),
        same_asset(a, b) && same_asset(b, c) ==> same_asset(a, c),
        a.symbol == b.symbol && a.network == b.network && a.contract_address == b.contract_address
            ==> same_asset(a, b),
{
}

} // verus!
