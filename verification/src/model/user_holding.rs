//! A holding as stored for a user.

use vstd::prelude::*;
use crate::decimal::Dec;
use crate::model::ids::{AssetId, HoldingId, UserId};

verus! {

/// A user's holding of an asset.
#[derive(PartialEq, Eq, Hash, Debug)]
pub struct UserHolding {
    pub id: HoldingId,
    pub user_id: UserId,
    pub asset_id: AssetId,
    pub amount: Dec,
    pub description: Option<String>,
}

impl UserHolding {
    pub fn new(
        id: HoldingId,
        user_id: UserId,
        asset_id: AssetId,
        amount: Dec,
        description: Option<String>,
    ) -> (h: Self)
        ensures
            h.id == id,
            h.user_id == user_id,
            h.asset_id == asset_id,
            h.amount == amount,
            h.description == description,
    {
        Self { id, user_id, asset_id, amount, description }
    }
}

} // verus!
