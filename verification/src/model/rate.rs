//! A recorded rate of an asset.

use vstd::prelude::*;
use crate::decimal::Dec;
use crate::model::ids::AssetId;
use crate::model::Timestamp;

verus! {

/// The rate of an asset in USD at a point in time.
pub struct Rate {
    pub asset_id: AssetId,
    pub rate_usd: Dec,
    pub at: Timestamp,
}

} // verus!
