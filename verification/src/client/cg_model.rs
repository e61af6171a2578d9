//! The price provider's response format, and its mapping into domain rates.

use vstd::prelude::*;
use crate::client::error::ClientError;
use crate::client::mapper::{map_cg_to_domain, mapped_rate};
use crate::client::model::{BlockchainAssetRate, GetRatesFromNetworkResponse};
use crate::client::util::WithEnrichment;
use crate::decimal::Dec;
use crate::model::{Contract, Network, Symbol};

verus! {

/// The attributes of a token as the provider reports them. The price is
/// absent for tokens whose rate is too low to be quoted.
#[derive(Debug)]
pub struct CGTokenAttribute {
    pub address: Contract,
    pub symbol: Symbol,
    pub name: String,
    pub price_usd: Option<Dec>,
}

impl Clone for CGTokenAttribute {
    fn clone(&self) -> (c: Self)
        ensures
            c == *self,
    {
        CGTokenAttribute {
            address: self.address.clone(),
            symbol: self.symbol.clone(),
            name: self.name.clone(),
            price_usd: self.price_usd,
        }
    }
}

/// One token of the provider's response.
#[derive(Debug)]
pub struct CGTokenData {
    pub attributes: CGTokenAttribute,
}

impl Clone for CGTokenData {
    fn clone(&self) -> (c: Self)
        ensures
            c == *self,
    {
        CGTokenData { attributes: self.attributes.clone() }
    }
}

/// The provider's response to a request for the rates of several tokens.
pub struct CGGetRatesFromNetworkResponse {
    data: Vec<CGTokenData>,
}

/// What each token of a response becomes: its rate, or the error saying
/// that it has none.
pub open spec fn token_outcome(d: CGTokenData, network: Network) -> Result<BlockchainAssetRate, ClientError> {
    match mapped_rate(d, network) {
        Some(r) => Ok(r),
        None => Err(ClientError::MissingAssetRateError(d)),
    }
}

/// The rates of the tokens that have one, in order.
pub open spec fn rates_of(data: Seq<CGTokenData>, network: Network) -> Seq<BlockchainAssetRate>
    decreases data.len(),
{
    if data.len() == 0 {
        Seq::empty()
    } else {
        let rest = rates_of(data.drop_last(), network);
        match mapped_rate(data.last(), network) {
            Some(r) => rest.push(r),
            None => rest,
        }
    }
}

/// The errors for the tokens that have no rate, in order.
pub open spec fn missing_rates_of(data: Seq<CGTokenData>) -> Seq<ClientError>
    decreases data.len(),
{
    if data.len() == 0 {
        Seq::empty()
    } else {
        let rest = missing_rates_of(data.drop_last());
        if data.last().attributes.price_usd is None {
            rest.push(ClientError::MissingAssetRateError(data.last()))
        } else {
            rest
        }
    }
}

/// Every token of a response ends up either among the rates or among the
/// missing rates, never both.
pub proof fn lemma_partition_counts(data: Seq<CGTokenData>, network: Network)
    ensures
        rates_of(data, network).len() + missing_rates_of(data).len() == data.len(),
    decreases data.len(),
{
    if data.len() > 0 {
        lemma_partition_counts(data.drop_last(), network);
    }
}

/// The successes of a sequence of results, in order.
pub open spec fn ok_values<T, E>(s: Seq<Result<T, E>>) -> Seq<T>
    decreases s.len(),
{
    if s.len() == 0 {
        Seq::empty()
    } else {
        match s.last() {
            Ok(t) => ok_values(s.drop_last()).push(t),
            Err(_) => ok_values(s.drop_last()),
        }
    }
}

/// The failures of a sequence of results, in order.
pub open spec fn err_values<T, E>(s: Seq<Result<T, E>>) -> Seq<E>
    decreases s.len(),
{
    if s.len() == 0 {
        Seq::empty()
    } else {
        match s.last() {
            Ok(_) => err_values(s.drop_last()),
            Err(e) => err_values(s.drop_last()).push(e),
        }
    }
}

/// Splits results into successes and failures with itertools'
/// `Itertools::partition_result`, which keeps the order of each side.
#[verifier::external_body]
fn partition_results<T, E>(items: Vec<Result<T, E>>) -> (r: (Vec<T>, Vec<E>))
    ensures
        r.0@ == ok_values(items@),
        r.1@ == err_values(items@),
{
    itertools::Itertools::partition_result(items.into_iter())
}

impl CGGetRatesFromNetworkResponse {
    pub fn new(data: Vec<CGTokenData>) -> (r: Self)
        ensures
            r.data() == data@,
    {
        CGGetRatesFromNetworkResponse { data }
    }

    /// The tokens of the response.
    pub closed spec fn data(&self) -> Seq<CGTokenData> {
        self.data@
    }

    /// The rates of the tokens that have one, and an error for each token
    /// that has none, both in the order of the response.
    pub fn partition(self, network: Network) -> (r: (Vec<BlockchainAssetRate>, Vec<ClientError>))
        ensures
            r.0@ == rates_of(self.data(), network),
            r.1@ == missing_rates_of(self.data()),
    {
        let data = self.data;
        let mut outcomes: Vec<Result<BlockchainAssetRate, ClientError>> = Vec::new();
        let mut i: usize = 0;
        while i < data.len()
            invariant
                i <= data@.len(),
                ok_values(outcomes@) == rates_of(data@.take(i as int), network),
                err_values(outcomes@) == missing_rates_of(data@.take(i as int)),
            decreases data.len() - i,
        {
            let d = data[i].clone();
            let outcome = match map_cg_to_domain(d.clone(), network) {
                Some(rate) => Ok(rate),
                None => Err(ClientError::MissingAssetRateError(d)),
            };
            proof {
                assert(data@.take(i + 1).drop_last() =~= data@.take(i as int));
                assert(data@.take(i + 1).last() == data@[i as int]);
            }
            let ghost before = outcomes@;
            outcomes.push(outcome);
            proof {
                assert(outcomes@.drop_last() =~= before);
            }
            i = i + 1;
        }
        assert(data@.take(data@.len() as int) =~= data@);
        partition_results(outcomes)
    }
}

impl WithEnrichment<Network, GetRatesFromNetworkResponse> for CGGetRatesFromNetworkResponse {
    /// The rates of the tokens that have one, in the order of the response;
    /// tokens without a price are left out.
    fn into_domain(self, network: Network) -> (r: GetRatesFromNetworkResponse)
        ensures
            r.rates@ == rates_of(self.data(), network),
    {
        let (rates, _missing) = self.partition(network);
        GetRatesFromNetworkResponse { rates }
    }
}

} // verus!
