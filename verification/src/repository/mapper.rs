//! From stored rows to domain values.

use vstd::prelude::*;
use vstd::std_specs::convert::TryFromSpecImpl;
use crate::model::network::{lemma_network_from_id_sound, network_from_id, network_id};
use crate::model::outbox_event::outbox_event_type_from_name;
use crate::model::{Asset, AssetAllocation, Network, OutboxEvent, OutboxEventType};
use crate::repository::error::DBError;
use crate::repository::model::{AssetAllocationDTO, BlockchainAssetDTO, OutboxEventDTO};

verus! {

/// The asset a stored row describes, or the error naming its unknown network.
pub open spec fn asset_from_row(v: BlockchainAssetDTO) -> Result<Asset, DBError> {
    match network_from_id(v.network@) {
        Some(network) => Ok(
            Asset {
                id: v.id,
                symbol: v.symbol,
                name: v.name,
                network,
                contract_address: v.contract_address,
            },
        ),
        None => Err(DBError::NetworkDeserializeError(v.network)),
    }
}

/// Reading a stored asset row keeps the row's identifier, symbol, name and
/// contract address, and takes the network whose identifier the row holds;
/// it fails, naming the row's network, exactly when no network has that
/// identifier.
pub proof fn lemma_asset_from_row_keeps_fields(v: BlockchainAssetDTO)
    ensures
        asset_from_row(v) is Ok <==> exists|n: Network| network_id(n) == v.network@,
        asset_from_row(v) matches Ok(a) ==> a.id == v.id && a.symbol == v.symbol && a.name == v.name
            && a.contract_address == v.contract_address && network_id(a.network) == v.network@,
        asset_from_row(v) matches Err(e) ==> e == DBError::NetworkDeserializeError(v.network),
{
    lemma_network_from_id_sound(v.network@);
}

/// Reading a stored allocation row keeps the row's identifier, symbol,
/// name, contract address and allocation, and takes the network whose
/// identifier the row holds; it fails, naming the row's network, exactly
/// when no network has that identifier.
pub proof fn lemma_allocation_from_row_keeps_fields(v: AssetAllocationDTO)
    ensures
        allocation_from_row(v) is Ok <==> exists|n: Network| network_id(n) == v.network@,
        allocation_from_row(v) matches Ok(a) ==> a.asset.id == v.id && a.asset.symbol == v.symbol
            && a.asset.name == v.name && a.asset.contract_address == v.contract_address
            && network_id(a.asset.network) == v.network@ && a.allocation_pct == v.allocation,
        allocation_from_row(v) matches Err(e) ==> e == DBError::NetworkDeserializeError(v.network),
{
    lemma_network_from_id_sound(v.network@);
}

impl TryFrom<BlockchainAssetDTO> for Asset {
    type Error = DBError;

    fn try_from(value: BlockchainAssetDTO) -> (r: Result<Self, Self::Error>)
        ensures
            r is Ok <==> exists|n: Network| network_id(n) == value.network@,
            r matches Ok(a) ==> a.id == value.id && a.symbol == value.symbol && a.name == value.name
                && a.contract_address == value.contract_address && network_id(a.network) == value.network@,
            r matches Err(e) ==> e == DBError::NetworkDeserializeError(value.network),
    {
        proof {
            lemma_asset_from_row_keeps_fields(value);
        }
        let network = match Network::from_id(value.network.as_str()) {
            Some(n) => n,
            None => return Err(DBError::NetworkDeserializeError(value.network)),
        };
        Ok(Asset::new(value.id, value.symbol, value.name, network, value.contract_address))
    }
}

impl TryFromSpecImpl<BlockchainAssetDTO> for Asset {
    open spec fn obeys_try_from_spec() -> bool {
        true
    }

    open spec fn try_from_spec(v: BlockchainAssetDTO) -> Result<Self, Self::Error> {
        asset_from_row(v)
    }
}

/// The allocation a stored row describes, or the error naming its unknown
/// network.
pub open spec fn allocation_from_row(v: AssetAllocationDTO) -> Result<AssetAllocation, DBError> {
    match network_from_id(v.network@) {
        Some(network) => Ok(
            AssetAllocation {
                asset: Asset {
                    id: v.id,
                    symbol: v.symbol,
                    name: v.name,
                    network,
                    contract_address: v.contract_address,
                },
                allocation_pct: v.allocation,
            },
        ),
        None => Err(DBError::NetworkDeserializeError(v.network)),
    }
}

impl TryFrom<AssetAllocationDTO> for AssetAllocation {
    type Error = DBError;

    fn try_from(asset: AssetAllocationDTO) -> (r: Result<Self, Self::Error>)
        ensures
            r is Ok <==> exists|n: Network| network_id(n) == asset.network@,
            r matches Ok(a) ==> a.asset.id == asset.id && a.asset.symbol == asset.symbol
                && a.asset.name == asset.name && a.asset.contract_address == asset.contract_address
                && network_id(a.asset.network) == asset.network@ && a.allocation_pct == asset.allocation,
            r matches Err(e) ==> e == DBError::NetworkDeserializeError(asset.network),
    {
        proof {
            lemma_allocation_from_row_keeps_fields(asset);
        }
        let network = match Network::from_id(asset.network.as_str()) {
            Some(n) => n,
            None => return Err(DBError::NetworkDeserializeError(asset.network)),
        };
        Ok(
            AssetAllocation::new(
                asset.id,
                asset.symbol,
                asset.name,
                network,
                asset.contract_address,
                asset.allocation,
            ),
        )
    }
}

impl TryFromSpecImpl<AssetAllocationDTO> for AssetAllocation {
    open spec fn obeys_try_from_spec() -> bool {
        true
    }

    open spec fn try_from_spec(v: AssetAllocationDTO) -> Result<Self, Self::Error> {
        allocation_from_row(v)
    }
}

/// The event a stored row describes, or the error naming its unknown type.
pub open spec fn outbox_event_from_row(dto: OutboxEventDTO) -> Result<OutboxEvent, DBError> {
    match outbox_event_type_from_name(dto.event_type@) {
        Some(event_type) => Ok(
            OutboxEvent {
                id: dto.id,
                event_type,
                created_at: dto.created_at,
                handled_at: dto.handled_at,
            },
        ),
        None => Err(DBError::OutboxEventTypeDeserializeError(dto.event_type)),
    }
}

impl TryFrom<OutboxEventDTO> for OutboxEvent {
    type Error = DBError;

    fn try_from(dto: OutboxEventDTO) -> (r: Result<Self, Self::Error>) {
        let event_type = match OutboxEventType::opt_from_str(dto.event_type.as_str()) {
            Some(t) => t,
            None => return Err(DBError::OutboxEventTypeDeserializeError(dto.event_type)),
        };
        Ok(OutboxEvent {
            id: dto.id,
            event_type,
            created_at: dto.created_at,
            handled_at: dto.handled_at,
        })
    }
}

impl TryFromSpecImpl<OutboxEventDTO> for OutboxEvent {
    open spec fn obeys_try_from_spec() -> bool {
        true
    }

    open spec fn try_from_spec(v: OutboxEventDTO) -> Result<Self, Self::Error> {
        outbox_event_from_row(v)
    }
}

} // verus!
