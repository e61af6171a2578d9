//! From the provider's token data to a domain rate.

use vstd::prelude::*;
use crate::client::cg_model::CGTokenData;
use crate::client::model::BlockchainAssetRate;
use crate::model::Network;

verus! {

/// The rate a token's data gives on a network: present exactly when the
/// provider quoted a price, and then made of the token's fields.
pub open spec fn mapped_rate(d: CGTokenData, network: Network) -> Option<BlockchainAssetRate> {
    match d.attributes.price_usd {
        Some(price) => Some(
            BlockchainAssetRate {
                symbol: d.attributes.symbol,
                name: d.attributes.name,
                network,
                contract: d.attributes.address,
                rate: price,
            },
        ),
        None => None,
    }
}

/// The domain rate of a token, or `None` when the provider quoted no price.
pub fn map_cg_to_domain(cg_token_data: CGTokenData, network: Network) -> (r: Option<BlockchainAssetRate>)
    ensures
        r == mapped_rate(cg_token_data, network),
{
    let price_usd = match cg_token_data.attributes.price_usd {
        Some(p) => p,
        None => return None,
    };
    Some(
        BlockchainAssetRate::new(
            cg_token_data.attributes.symbol,
            cg_token_data.attributes.name,
            network,
            cg_token_data.attributes.address,
            price_usd,
        ),
    )
}

} // verus!
