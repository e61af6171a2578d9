//! Rows to be written in bulk, split into one column per field.

use vstd::prelude::*;
use crate::decimal::Dec;
use crate::model::{AssetRate, UserId};

verus! {

/// The asset identifiers and the rates of `rates`, as two columns in the
/// same order.
pub fn rate_columns(rates: &Vec<AssetRate>) -> (cols: (Vec<u128>, Vec<Dec>))
    ensures
        cols.0@.len() == rates@.len(),
        cols.1@.len() == rates@.len(),
        forall|i: int|
            0 <= i < rates@.len() ==> #[trigger] cols.0@[i] == rates@[i].asset.id.0 && cols.1@[i]
                == rates@[i].rate_usd,
{
    let mut ids: Vec<u128> = Vec::new();
    let mut values: Vec<Dec> = Vec::new();
    let mut i: usize = 0;
    while i < rates.len()
        invariant
            i <= rates@.len(),
            ids@.len() == i,
            values@.len() == i,
            forall|j: int| 0 <= j < i ==> #[trigger] ids@[j] == rates@[j].asset.id.0 && values@[j] == rates@[j].rate_usd,
        decreases rates.len() - i,
    {
        ids.push(rates[i].asset.id.0);
        values.push(rates[i].rate_usd);
        i = i + 1;
    }
    (ids, values)
}

/// The user identifiers and the portfolio values of `snapshots`, as two
/// columns in the same order.
pub fn snapshot_columns(snapshots: &Vec<(UserId, Dec)>) -> (cols: (Vec<u128>, Vec<Dec>))
    ensures
        cols.0@.len() == snapshots@.len(),
        cols.1@.len() == snapshots@.len(),
        forall|i: int|
            0 <= i < snapshots@.len() ==> #[trigger] cols.0@[i] == snapshots@[i].0.0 && cols.1@[i]
                == snapshots@[i].1,
{
    let mut ids: Vec<u128> = Vec::new();
    let mut values: Vec<Dec> = Vec::new();
    let mut i: usize = 0;
    while i < snapshots.len()
        invariant
            i <= snapshots@.len(),
            ids@.len() == i,
            values@.len() == i,
            forall|j: int| 0 <= j < i ==> #[trigger] ids@[j] == snapshots@[j].0.0 && values@[j] == snapshots@[j].1,
        decreases snapshots.len() - i,
    {
        let (user, value) = snapshots[i];
        ids.push(user.0);
        values.push(value);
        i = i + 1;
    }
    (ids, values)
}

} // verus!
