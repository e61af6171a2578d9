use portfolio_tracker_backend::decimal::Dec;
use std::collections::hash_map::DefaultHasher;
use std::hash::{Hash, Hasher};
use portfolio_tracker_backend::model::claims::TOKEN_VALIDITY_SECS;
use portfolio_tracker_backend::model::{
    Asset, AssetId, Claims, Contract, HoldingId, Network, OutboxEventType, Symbol, TokenOnChain, UserId,
};

#[test]
fn network_from_known_id() {
    assert_eq!(Network::from_id("solana"), Some(Network::Solana));
}

#[test]
fn network_from_unknown_id() {
    assert_eq!(Network::from_id("unknown"), None);
}

#[test]
fn every_network_reads_back_from_its_id() {
    for n in Network::all() {
        assert_eq!(Network::from_id(n.to_id()), Some(n));
    }
    assert_eq!(Network::all().len(), 11);
}

#[test]
fn network_ids_and_names() {
    assert_eq!(Network::Ethereum.to_id(), "eth");
    assert_eq!(Network::Sui.to_id(), "sui-network");
    assert_eq!(Network::Polygon.to_id(), "polygon_pos");
    assert_eq!(Network::Avalanche.to_id(), "avax");
    assert_eq!(Network::Polygon.display_name(), "Polygon");
    assert_eq!(Network::from_id("Ethereum"), None);
    assert_eq!(Network::from_id(""), None);
}

#[test]
fn outbox_event_type_reads_back_from_its_name() {
    let t = OutboxEventType::RatesPersisted;
    assert_eq!(t.to_text(), "RatesPersisted");
    assert_eq!(OutboxEventType::opt_from_str(&t.to_text()), Some(t));
    assert_eq!(OutboxEventType::opt_from_str("ratespersisted"), None);
}

fn asset(id: u128, symbol: &str, network: Network, contract: &str) -> Asset {
    Asset::new(AssetId(id), Symbol(symbol.to_string()), format!("{} name", symbol), network, Contract(contract.to_string()))
}

#[test]
fn same_asset_ignores_identifier() {
    let a = asset(1, "ETH", Network::Ethereum, "0xe");
    let b = asset(2, "ETH", Network::Ethereum, "0xe");
    assert!(a.is_same_asset(&b));
    assert!(b.is_same_asset(&a));
    assert!(a.is_same_asset(&a));
    assert!(!a.is_same_asset(&asset(1, "ETH", Network::Base, "0xe")));
    assert!(!a.is_same_asset(&asset(1, "ETH", Network::Ethereum, "0xf")));
    assert!(!a.is_same_asset(&asset(1, "WETH", Network::Ethereum, "0xe")));
}

#[test]
fn asset_and_token_texts() {
    assert_eq!(asset(1, "BTC", Network::Bitcoin, "0x1").to_text(), "BTC: Bitcoin(0x1)");
    let t = TokenOnChain::new(Symbol("SOL".to_string()), Contract("So1".to_string()));
    assert_eq!(t.to_text(), "SOL(So1)");
    assert_eq!(Contract::from("0xabc".to_string()).to_text(), "0xabc");
}

#[test]
fn contract_from_text_round_trips() {
    let borrowed = Contract::from_text("0xabc");
    assert_eq!(borrowed.to_text(), "0xabc");
    assert_eq!(borrowed, Contract::from("0xabc".to_string()));
    assert_eq!(Contract::from_text("").to_text(), "");
    assert_ne!(Contract::from_text("0xabc"), Contract::from_text("0xABC"));
}

#[test]
fn fresh_ids_are_version_4_uuids() {
    for _ in 0..16 {
        let a = AssetId::new().0;
        let h = HoldingId::new().0;
        for bits in [a, h] {
            assert_eq!(bits & 0xF000_0000_0000_0000_0000, 0x4000_0000_0000_0000_0000);
            assert_eq!(bits & 0xC000_0000_0000_0000, 0x8000_0000_0000_0000);
        }
    }
    assert_ne!(AssetId::new(), AssetId::new());
}

#[test]
fn claims_expire_a_day_after_issue() {
    let c = Claims::issued_at(UserId(9), 1_700_000_000);
    assert_eq!(c.sub, UserId(9));
    assert_eq!(c.iat, 1_700_000_000);
    assert_eq!(c.exp, 1_700_000_000 + 24 * 3600);
    assert_eq!(TOKEN_VALIDITY_SECS, 86400);
}

#[test]
fn dec_parts_are_range_checked() {
    assert!(Dec::from_parts(0xFFFF_FFFF_FFFF_FFFF_FFFF_FFFF, 28).is_some());
    assert!(Dec::from_parts(0x1_0000_0000_0000_0000_0000_0000, 0).is_none());
    assert!(Dec::from_parts(-0x1_0000_0000_0000_0000_0000_0000, 0).is_none());
    assert!(Dec::from_parts(1, 29).is_none());
    let d = Dec::from_parts(-12345, 3).unwrap();
    assert_eq!((d.mantissa(), d.scale()), (-12345, 3));
    assert_eq!(Dec::zero().mantissa(), 0);
}

fn dec(m: i128, s: u32) -> Dec {
    Dec::from_parts(m, s).unwrap()
}

fn hash_of(d: &Dec) -> u64 {
    let mut h = DefaultHasher::new();
    d.hash(&mut h);
    h.finish()
}

#[test]
fn dec_equality_is_by_value() {
    assert_eq!(dec(1, 0), dec(10, 1));
    assert_eq!(dec(150, 2), dec(15, 1));
    assert_eq!(dec(0, 3), dec(0, 5));
    assert_eq!(dec(-2, 0), dec(-2_000, 3));
    assert_eq!(dec(1, 0), dec(10_000_000_000_000_000_000_000_000_000, 28));
    assert_ne!(dec(2, 0), dec(-2, 0));
    assert_ne!(dec(15, 1), dec(150, 1));
    assert_ne!(dec(1, 0), dec(0, 28));
    assert_ne!(dec(0xFFFF_FFFF_FFFF_FFFF_FFFF_FFFF, 0), dec(0xFFFF_FFFF_FFFF_FFFF_FFFF_FFFF, 28));
    assert_ne!(dec(7, 0), dec(70_000_000_000_000_000_000_000_000_001, 28));
    assert_eq!(hash_of(&dec(1, 0)), hash_of(&dec(100, 2)));
    assert_eq!(hash_of(&dec(0, 0)), hash_of(&dec(0, 7)));
}

#[test]
fn dec_text_matches_decimal_display() {
    let cases: [(i128, u32, &str); 7] = [
        (75000, 0, "75000"),
        (0, 0, "0"),
        (0, 2, "0.00"),
        (5, 3, "0.005"),
        (-5, 3, "-0.005"),
        (12345, 2, "123.45"),
        (-120, 1, "-12.0"),
    ];
    for (m, s, text) in cases {
        assert_eq!(Dec::from_parts(m, s).unwrap().to_text(), text);
        assert_eq!(rust_decimal::Decimal::from_i128_with_scale(m, s).to_string(), text);
    }
}
