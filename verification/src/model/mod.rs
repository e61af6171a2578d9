//! The domain model.

pub mod asset;
pub mod asset_allocation;
pub mod asset_holdings;
pub mod asset_holdings_with_drift;
pub mod asset_price;
pub mod asset_rate;
pub mod blockchain_asset;
pub mod claims;
pub mod contract;
pub mod ids;
pub mod network;
pub mod outbox_event;
pub mod portfolio;
pub mod portfolio_holdings;
pub mod portfolio_value_at;
pub mod rate;
pub mod symbol;
pub mod timestamp;
pub mod token_on_chain;
pub mod user_holding;

pub use asset::Asset;
pub use asset_allocation::AssetAllocation;
pub use asset_holdings::{AssetHoldings, Holding};
pub use asset_holdings_with_drift::{AssetHoldingsWithDrift, HoldingWithAllocation};
pub use asset_price::AssetPrice;
pub use asset_rate::AssetRate;
pub use blockchain_asset::BlockchainAsset;
pub use claims::Claims;
pub use contract::Contract;
pub use ids::{AssetId, HoldingId, OutboxEventId, UserId};
pub use network::Network;
pub use outbox_event::{OutboxEvent, OutboxEventType};
pub use portfolio::PortfolioResponse;
pub use portfolio_holdings::PortfolioHoldings;
pub use portfolio_value_at::PortfolioValueAt;
pub use rate::Rate;
pub use symbol::Symbol;
pub use timestamp::Timestamp;
pub use token_on_chain::TokenOnChain;
pub use user_holding::UserHolding;
