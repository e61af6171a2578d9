use portfolio_tracker_backend::client::cg_model::{CGGetRatesFromNetworkResponse, CGTokenAttribute, CGTokenData};
use portfolio_tracker_backend::client::endpoint::rates_url;
use portfolio_tracker_backend::client::mapper::map_cg_to_domain;
use portfolio_tracker_backend::client::model::{BlockchainAssetRate, GetRatesFromNetworkResponse};
use portfolio_tracker_backend::client::util::{join_as_csv, WithEnrichment};
use portfolio_tracker_backend::decimal::Dec;
use portfolio_tracker_backend::model::{Contract, Network, Symbol};
use portfolio_tracker_backend::ClientError;
use rust_decimal::prelude::FromPrimitive;
use rust_decimal::Decimal;

fn dec(d: Decimal) -> Dec {
    Dec::from_parts(d.mantissa(), d.scale()).unwrap()
}

fn token(symbol: &str, address: &str, price: Option<Dec>) -> CGTokenData {
    CGTokenData {
        attributes: CGTokenAttribute {
            address: Contract(address.to_string()),
            symbol: Symbol(symbol.to_string()),
            name: format!("{} token", symbol),
            price_usd: price,
        },
    }
}

#[test]
fn join_as_csv_joins_with_comma() {
    assert_eq!(join_as_csv(&["a", "b", "c"]), "a,b,c");
}

#[test]
fn join_as_csv_single_element() {
    assert_eq!(join_as_csv(&["a"]), "a");
}

#[test]
fn join_as_csv_empty() {
    assert_eq!(join_as_csv::<&str>(&[]), "");
}

#[test]
fn map_cg_to_domain_works() {
    let symbol = Symbol("BTC".to_string());
    let name = "Bitcoin".to_string();
    let contract = Contract("0x123".to_string());
    let network = Network::Bitcoin;
    let rate_usd = dec(Decimal::from_f64(75_000f64).unwrap());
    assert_eq!(
        map_cg_to_domain(
            CGTokenData {
                attributes: CGTokenAttribute {
                    symbol: symbol.clone(),
                    name: name.clone(),
                    address: contract.clone(),
                    price_usd: Some(rate_usd.clone()),
                }
            },
            network
        ),
        Some(BlockchainAssetRate::new(symbol, name, network, contract, rate_usd))
    )
}

#[test]
fn map_cg_to_domain_without_price_is_none() {
    assert_eq!(map_cg_to_domain(token("DEAD", "0xdead", None), Network::Ethereum), None);
}

#[test]
fn join_as_csv_joins_contracts() {
    let contracts = vec![Contract("0xa".to_string()), Contract("0xb".to_string())];
    assert_eq!(join_as_csv(&contracts), "0xa,0xb");
}

#[test]
fn rates_url_lists_contracts_of_network() {
    let contracts = vec![Contract("0xa".to_string()), Contract("0xb".to_string())];
    assert_eq!(
        rates_url("https://api.example", Network::Polygon, &contracts),
        "https://api.example/onchain/networks/polygon_pos/tokens/multi/0xa,0xb"
    );
}

#[test]
fn partition_keeps_order_and_reports_missing_prices() {
    let one = dec(Decimal::new(15, 1));
    let two = dec(Decimal::new(2, 0));
    let response = CGGetRatesFromNetworkResponse::new(vec![
        token("A", "0xa", Some(one)),
        token("B", "0xb", None),
        token("C", "0xc", Some(two)),
        token("D", "0xd", None),
    ]);
    let (rates, missing) = response.partition(Network::Base);
    assert_eq!(rates.len(), 2);
    assert_eq!(rates[0].symbol, Symbol("A".to_string()));
    assert_eq!(rates[0].rate, one);
    assert_eq!(rates[0].network, Network::Base);
    assert_eq!(rates[1].contract, Contract("0xc".to_string()));
    assert_eq!(rates[1].rate, two);
    assert_eq!(missing.len(), 2);
    match &missing[0] {
        ClientError::MissingAssetRateError(d) => assert_eq!(d.attributes.symbol, Symbol("B".to_string())),
        other => panic!("unexpected {:?}", other),
    }
    match &missing[1] {
        ClientError::MissingAssetRateError(d) => assert_eq!(d.attributes.symbol, Symbol("D".to_string())),
        other => panic!("unexpected {:?}", other),
    }
}

#[test]
fn into_domain_drops_tokens_without_price() {
    let response = CGGetRatesFromNetworkResponse::new(vec![
        token("A", "0xa", None),
        token("B", "0xb", Some(dec(Decimal::new(42, 0)))),
    ]);
    let domain: GetRatesFromNetworkResponse = response.into_domain(Network::Sui);
    assert_eq!(domain.rates.len(), 1);
    assert_eq!(domain.rates[0].name, "B token");
    assert_eq!(domain.rates[0].network, Network::Sui);
}

#[test]
fn rates_response_text_has_one_line_per_rate() {
    let response = GetRatesFromNetworkResponse {
        rates: vec![
            BlockchainAssetRate::new(
                Symbol("BTC".to_string()),
                "Bitcoin".to_string(),
                Network::Bitcoin,
                Contract("0x1".to_string()),
                dec(Decimal::new(7500012, 2)),
            ),
            BlockchainAssetRate::new(
                Symbol("X".to_string()),
                "X".to_string(),
                Network::Avalanche,
                Contract("0x2".to_string()),
                dec(Decimal::new(-5, 3)),
            ),
        ],
    };
    assert_eq!(response.to_text(), "BTC Bitcoin(0x1): 75000.12\nX Avalanche(0x2): -0.005\n");
}

#[test]
fn status_codes_map_to_errors() {
    assert!(ClientError::from_status(200).is_none());
    assert!(matches!(ClientError::from_status(401), Some(ClientError::Unauthorized)));
    assert!(matches!(ClientError::from_status(404), Some(ClientError::NotFound)));
    assert!(matches!(ClientError::from_status(429), Some(ClientError::RateLimited)));
    assert!(matches!(ClientError::from_status(503), Some(ClientError::Unexpected(503))));
}

#[test]
fn client_error_messages() {
    assert_eq!(ClientError::Unexpected(503).to_text(), "ClientError: unexpected error 503");
    assert_eq!(ClientError::Unexpected(0).to_text(), "ClientError: unexpected error 0");
    assert_eq!(ClientError::RateLimited.to_text(), "ClientError: rate limited");
    assert_eq!(ClientError::HttpError("timeout".to_string()).to_text(), "HTTP error: timeout");
    assert_eq!(
        ClientError::MissingAssetRateError(token("B", "0xb", None)).to_text(),
        "ClientError: no rate for B(0xb)"
    );
}
