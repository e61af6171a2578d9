use portfolio_tracker_backend::decimal::Dec;
use portfolio_tracker_backend::model::{
    Asset, AssetAllocation, AssetHoldings, AssetId, AssetRate, Contract, HoldingId, Network, OutboxEvent,
    OutboxEventId, OutboxEventType, Symbol, Timestamp, UserHolding, UserId,
};
use portfolio_tracker_backend::repository::columns::{rate_columns, snapshot_columns};
use portfolio_tracker_backend::repository::holdings::{
    checked_holdings_from_rows, holdings_arithmetic_defined, holdings_by_user, holdings_from_rows,
};
use portfolio_tracker_backend::repository::model::{AssetAllocationDTO, BlockchainAssetDTO, HoldingDTO, OutboxEventDTO};
use portfolio_tracker_backend::repository::DBError;

fn d(m: i128, s: u32) -> Dec {
    Dec::from_parts(m, s).unwrap()
}

fn row(id: u128, asset: u128, network: &str, amount: Dec, rate: Dec) -> HoldingDTO {
    HoldingDTO {
        id: HoldingId(id),
        asset_id: AssetId(asset),
        symbol: Symbol(format!("S{}", asset)),
        name: format!("Asset {}", asset),
        network: network.to_string(),
        contract_address: Contract(format!("0x{}", asset)),
        amount,
        description: if id % 2 == 0 { Some(format!("note {}", id)) } else { None },
        rate_usd: rate,
    }
}

#[test]
fn asset_row_maps_to_asset() {
    let dto = BlockchainAssetDTO {
        id: AssetId(5),
        symbol: Symbol("ETH".to_string()),
        name: "Ether".to_string(),
        network: "eth".to_string(),
        contract_address: Contract("0xe".to_string()),
    };
    let asset = Asset::try_from(dto).unwrap();
    assert_eq!(asset.network, Network::Ethereum);
    assert_eq!(asset.id, AssetId(5));
    assert_eq!(asset.name, "Ether");
}

#[test]
fn asset_row_with_unknown_network_is_rejected() {
    let dto = BlockchainAssetDTO {
        id: AssetId(5),
        symbol: Symbol("X".to_string()),
        name: "X".to_string(),
        network: "ethereum".to_string(),
        contract_address: Contract("0xe".to_string()),
    };
    assert_eq!(Asset::try_from(dto), Err(DBError::NetworkDeserializeError("ethereum".to_string())));
}

#[test]
fn allocation_row_maps_to_allocation() {
    let dto = AssetAllocationDTO {
        id: AssetId(1),
        symbol: Symbol("SOL".to_string()),
        name: "Solana".to_string(),
        network: "solana".to_string(),
        contract_address: Contract("So1".to_string()),
        allocation: d(2550, 2),
    };
    let a = AssetAllocation::try_from(dto).unwrap();
    assert_eq!(a.asset.network, Network::Solana);
    assert_eq!(a.allocation_pct, d(2550, 2));
    let bad = AssetAllocationDTO {
        id: AssetId(1),
        symbol: Symbol("SOL".to_string()),
        name: "Solana".to_string(),
        network: "sol".to_string(),
        contract_address: Contract("So1".to_string()),
        allocation: d(1, 0),
    };
    assert_eq!(AssetAllocation::try_from(bad).err(), Some(DBError::NetworkDeserializeError("sol".to_string())));
}

#[test]
fn outbox_rows_map_to_events() {
    let dto = OutboxEventDTO {
        id: OutboxEventId(3),
        event_type: "RatesPersisted".to_string(),
        created_at: Timestamp(10),
        handled_at: None,
    };
    let e = OutboxEvent::try_from(dto).unwrap();
    assert_eq!(e.event_type, OutboxEventType::RatesPersisted);
    assert_eq!(e.created_at, Timestamp(10));
    let bad = OutboxEventDTO {
        id: OutboxEventId(3),
        event_type: "Other".to_string(),
        created_at: Timestamp(10),
        handled_at: Some(Timestamp(11)),
    };
    assert!(matches!(
        OutboxEvent::try_from(bad),
        Err(DBError::OutboxEventTypeDeserializeError(s)) if s == "Other"
    ));
}

#[test]
fn holdings_of_one_asset_are_valued_and_totalled() {
    let rows = vec![row(1, 7, "bitcoin", d(2, 0), d(3, 0)), row(2, 7, "bitcoin", d(15, 1), d(3, 0))];
    assert!(holdings_arithmetic_defined(&rows));
    let h: AssetHoldings = AssetHoldings::try_from_rows(rows).unwrap();
    assert_eq!(h.asset_rate.asset.network, Network::Bitcoin);
    assert_eq!(h.asset_rate.rate_usd, d(3, 0));
    assert_eq!(h.holdings.len(), 2);
    assert_eq!(h.holdings[0].value_usd, d(6, 0));
    assert_eq!(h.holdings[1].value_usd, d(45, 1));
    assert_eq!(h.holdings[1].description, Some("note 2".to_string()));
    assert_eq!(h.total_value_usd, d(105, 1));
}

#[test]
fn holdings_with_unknown_network_are_rejected() {
    let rows = vec![row(1, 7, "btc", d(2, 0), d(3, 0))];
    assert_eq!(
        AssetHoldings::try_from_rows(rows).err(),
        Some(DBError::NetworkDeserializeError("btc".to_string()))
    );
}

#[test]
fn holdings_that_overflow_are_reported() {
    let big = d(0xFFFF_FFFF_FFFF_FFFF_FFFF_FFFF, 0);
    let rows = vec![row(1, 7, "bitcoin", big, big)];
    assert!(!holdings_arithmetic_defined(&rows));
    assert!(AssetHoldings::checked_try_from_rows(rows).is_none());
    let unknown = vec![row(1, 7, "nowhere", big, big)];
    assert!(matches!(AssetHoldings::checked_try_from_rows(unknown), Some(Err(_))));
}

#[test]
fn rows_are_grouped_by_asset() {
    let rows = vec![
        row(1, 7, "bitcoin", d(1, 0), d(10, 0)),
        row(2, 8, "eth", d(2, 0), d(5, 0)),
        row(3, 7, "bitcoin", d(3, 0), d(10, 0)),
    ];
    let mut groups = holdings_from_rows(rows).unwrap();
    groups.sort_by_key(|g| g.asset_rate.asset.id.0);
    assert_eq!(groups.len(), 2);
    assert_eq!(groups[0].asset_rate.asset.id, AssetId(7));
    assert_eq!(groups[0].holdings.len(), 2);
    assert_eq!(groups[0].holdings[0].id, HoldingId(1));
    assert_eq!(groups[0].holdings[1].id, HoldingId(3));
    assert_eq!(groups[0].total_value_usd, d(40, 0));
    assert_eq!(groups[1].asset_rate.asset.network, Network::Ethereum);
    assert_eq!(groups[1].total_value_usd, d(10, 0));
}

#[test]
fn grouping_fails_on_unknown_network() {
    let rows = vec![row(1, 7, "bitcoin", d(1, 0), d(10, 0)), row(2, 8, "mars", d(2, 0), d(5, 0))];
    assert_eq!(holdings_from_rows(rows).err(), Some(DBError::NetworkDeserializeError("mars".to_string())));
    let big = d(0xFFFF_FFFF_FFFF_FFFF_FFFF_FFFF, 0);
    let overflowing = vec![row(1, 7, "bitcoin", big, big)];
    assert!(checked_holdings_from_rows(overflowing).is_none());
    assert!(matches!(checked_holdings_from_rows(vec![row(1, 7, "bitcoin", d(1, 0), d(1, 0))]), Some(Ok(v)) if v.len() == 1));
}

#[test]
fn user_holdings_are_grouped_by_user() {
    let h = |id: u128, user: u128| UserHolding::new(HoldingId(id), UserId(user), AssetId(1), d(1, 0), None);
    let map = holdings_by_user(vec![h(1, 100), h(2, 200), h(3, 100)]);
    assert_eq!(map.len(), 2);
    let ids: Vec<u128> = map[&100].iter().map(|x| x.id.0).collect();
    assert_eq!(ids, vec![1, 3]);
    assert_eq!(map[&200].len(), 1);
}

#[test]
fn columns_keep_row_order() {
    let rate = |id: u128, m: i128| {
        AssetRate::new(Asset::new(AssetId(id), Symbol("S".to_string()), "n".to_string(), Network::Mode, Contract("c".to_string())), d(m, 1))
    };
    let (ids, values) = rate_columns(&vec![rate(4, 10), rate(2, 20)]);
    assert_eq!(ids, vec![4, 2]);
    assert_eq!(values, vec![d(10, 1), d(20, 1)]);
    let (users, totals) = snapshot_columns(&vec![(UserId(8), d(5, 0)), (UserId(9), d(6, 0))]);
    assert_eq!(users, vec![8, 9]);
    assert_eq!(totals, vec![d(5, 0), d(6, 0)]);
}

#[test]
fn db_error_messages() {
    assert_eq!(DBError::NetworkDeserializeError("x".to_string()).to_text(), "Network x could not be deserialized");
    assert_eq!(DBError::UserEmailAlreadyExistsError("a@b.c".to_string()).to_text(), "User email a@b.c already exists");
    assert_eq!(DBError::ConnectorError("down".to_string()).to_text(), "Database Error: down");
}
