//! Request paths of the price provider.

use vstd::prelude::*;
use crate::client::util::{cell_texts, comma_joined, join_as_csv};
use crate::model::network::network_id;
use crate::model::{Contract, Network};

verus! {

/// The URL asking for the rates of `contracts` on `network`:
/// `{base}/onchain/networks/{network id}/tokens/multi/{contracts, comma-separated}`.
pub open spec fn rates_url_text(base_url: Seq<char>, network: Network, contracts: Seq<Contract>) -> Seq<char> {
    base_url + "/onchain/networks/"@ + network_id(network) + "/tokens/multi/"@ + comma_joined(cell_texts(contracts))
}

/// The URL asking the provider for the rates of `contracts` on `network`.
pub fn rates_url(base_url: &str, network: Network, contracts: &[Contract]) -> (url: String)
    ensures
        url@ == rates_url_text(base_url@, network, contracts@),
{
    let mut url = base_url.to_owned();
    url.append("/onchain/networks/");
    url.append(network.to_id());
    url.append("/tokens/multi/");
    let joined = join_as_csv(contracts);
    url.append(joined.as_str());
    url
}

} // verus!
