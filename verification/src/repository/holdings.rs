//! From stored holding rows to the holdings of each asset, with their value.

use vstd::prelude::*;
use std::collections::HashMap;
use crate::decimal::{Dec, decimal_checked_add, decimal_checked_mul, dec_checked_add, dec_checked_mul, opt_parts};
use crate::model::network::network_from_id;
use crate::model::{Asset, AssetHoldings, AssetRate, Holding, Network, UserHolding};
use crate::repository::error::DBError;
use crate::repository::model::HoldingDTO;

verus! {

/// A row that belongs to a group named by a 128-bit key.
pub trait GroupKey {
    /// The key of the row's group.
    spec fn group_key(&self) -> u128;

    /// The key of the row's group.
    fn key(&self) -> (k: u128)
        ensures
            k == self.group_key(),
    ;
}

impl GroupKey for HoldingDTO {
    open spec fn group_key(&self) -> u128 {
        self.asset_id.0
    }

    fn key(&self) -> (k: u128)
        ensures
            k == self.asset_id.0,
    {
        self.asset_id.0
    }
}

impl GroupKey for UserHolding {
    open spec fn group_key(&self) -> u128 {
        self.user_id.0
    }

    fn key(&self) -> (k: u128)
        ensures
            k == self.user_id.0,
    {
        self.user_id.0
    }
}

/// Whether a holding row is a row of the asset with identifier `asset`.
pub open spec fn of_asset(asset: u128) -> spec_fn(HoldingDTO) -> bool {
    |r: HoldingDTO| r.asset_id.0 == asset
}

/// Whether a stored holding belongs to the user with identifier `user`.
pub open spec fn of_user(user: u128) -> spec_fn(UserHolding) -> bool {
    |h: UserHolding| h.user_id.0 == user
}

/// Holding rows are grouped by asset: an asset has a group exactly when some
/// row is of that asset, and its group is the rows of that asset, in order.
pub proof fn lemma_holding_rows_group_by_asset(rows: Seq<HoldingDTO>, asset: u128)
    ensures
        has_key(rows, asset) <==> exists|i: int| 0 <= i < rows.len() && (#[trigger] rows[i]).asset_id.0 == asset,
        group_of(rows, asset) == rows.filter(of_asset(asset)),
{
    if exists|i: int| 0 <= i < rows.len() && (#[trigger] rows[i]).asset_id.0 == asset {
        let i = choose|i: int| 0 <= i < rows.len() && (#[trigger] rows[i]).asset_id.0 == asset;
        assert(rows[i].group_key() == asset);
    }
    assert(key_is::<HoldingDTO>(asset) =~= of_asset(asset));
}

/// Stored holdings are grouped by user: a user has a group exactly when some
/// holding is that user's, and the group is that user's holdings, in order.
pub proof fn lemma_user_holdings_group_by_user(rows: Seq<UserHolding>, user: u128)
    ensures
        has_key(rows, user) <==> exists|i: int| 0 <= i < rows.len() && (#[trigger] rows[i]).user_id.0 == user,
        group_of(rows, user) == rows.filter(of_user(user)),
{
    if exists|i: int| 0 <= i < rows.len() && (#[trigger] rows[i]).user_id.0 == user {
        let i = choose|i: int| 0 <= i < rows.len() && (#[trigger] rows[i]).user_id.0 == user;
        assert(rows[i].group_key() == user);
    }
    assert(key_is::<UserHolding>(user) =~= of_user(user));
}

/// Whether some row has key `k`.
pub open spec fn has_key<V: GroupKey>(rows: Seq<V>, k: u128) -> bool {
    exists|i: int| 0 <= i < rows.len() && #[trigger] rows[i].group_key() == k
}

/// Whether a row has key `k`.
pub open spec fn key_is<V: GroupKey>(k: u128) -> spec_fn(V) -> bool {
    |v: V| v.group_key() == k
}

/// The rows with key `k`, in the order of the input.
pub open spec fn group_of<V: GroupKey>(rows: Seq<V>, k: u128) -> Seq<V> {
    rows.filter(key_is(k))
}

/// Groups rows by key with itertools' `Itertools::into_group_map_by`: each
/// key that occurs maps to its rows, in the order of the input.
#[verifier::external_body]
fn group_map_by_key<V: GroupKey>(rows: Vec<V>) -> (m: HashMap<u128, Vec<V>>)
    ensures
        forall|k: u128| #[trigger] m@.contains_key(k) <==> has_key(rows@, k),
        forall|k: u128| #[trigger] m@.contains_key(k) ==> m@[k]@ == group_of(rows@, k),
{
    itertools::Itertools::into_group_map_by(rows.into_iter(), |v: &V| v.key())
}

/// Whether `ks` lists each key of `m` once, and `vs` the values of those
/// keys in the same order.
pub open spec fn values_in_key_order<V>(vs: Seq<Vec<V>>, ks: Seq<u128>, m: Map<u128, Vec<V>>) -> bool {
    &&& ks.len() == vs.len()
    &&& ks.no_duplicates()
    &&& forall|k: u128| ks.contains(k) <==> #[trigger] m.contains_key(k)
    &&& forall|i: int| 0 <= i < ks.len() ==> #[trigger] vs[i] == m[ks[i]]
}

/// The values of a map with std's `HashMap::into_values`, collected in the
/// map's arbitrary order: each key's value once.
#[verifier::external_body]
fn hash_map_into_values<V>(m: HashMap<u128, Vec<V>>) -> (vs: Vec<Vec<V>>)
    ensures
        exists|ks: Seq<u128>| values_in_key_order(vs@, ks, m@),
{
    m.into_values().collect()
}

/// The rows of each user, keyed by the user's identifier.
pub fn holdings_by_user(rows: Vec<UserHolding>) -> (m: HashMap<u128, Vec<UserHolding>>)
    ensures
        forall|k: u128| #[trigger] m@.contains_key(k) <==> has_key(rows@, k),
        forall|k: u128| #[trigger] m@.contains_key(k) ==> m@[k]@ == group_of(rows@, k),
        forall|u: u128|
            #[trigger] m@.contains_key(u) <==> exists|i: int| 0 <= i < rows@.len() && (#[trigger] rows@[i]).user_id.0 == u,
        forall|u: u128| #[trigger] m@.contains_key(u) ==> m@[u]@ == rows@.filter(of_user(u)),
{
    let ghost all = rows@;
    let m = group_map_by_key(rows);
    proof {
        assert forall|u: u128| #[trigger] m@.contains_key(u) <==> exists|i: int| 0 <= i < all.len() && (#[trigger] all[i]).user_id.0 == u by {
            lemma_user_holdings_group_by_user(all, u);
        }
        assert forall|u: u128| #[trigger] m@.contains_key(u) implies m@[u]@ == all.filter(of_user(u)) by {
            lemma_user_holdings_group_by_user(all, u);
        }
    }
    m
}

/// `a * b` as rust_decimal computes it, on mantissa-and-scale pairs.
pub open spec fn mul_parts(a: (i128, u32), b: (i128, u32)) -> Option<(i128, u32)> {
    decimal_checked_mul(a.0, a.1, b.0, b.1)
}

/// `a + b` as rust_decimal computes it, on mantissa-and-scale pairs.
pub open spec fn add_parts(a: (i128, u32), b: (i128, u32)) -> Option<(i128, u32)> {
    decimal_checked_add(a.0, a.1, b.0, b.1)
}

/// The value of a row: amount times rate.
pub open spec fn row_value(r: HoldingDTO) -> Option<(i128, u32)> {
    mul_parts(r.amount.parts(), r.rate_usd.parts())
}

/// The total value of rows: the sum, from zero and in order, of rate times
/// amount; `None` when a product or a partial sum overflows.
pub open spec fn rows_total(rows: Seq<HoldingDTO>) -> Option<(i128, u32)>
    decreases rows.len(),
{
    if rows.len() == 0 {
        Some((0i128, 0u32))
    } else {
        match rows_total(rows.drop_last()) {
            Some(acc) => match mul_parts(rows.last().rate_usd.parts(), rows.last().amount.parts()) {
                Some(p) => add_parts(acc, p),
                None => None,
            },
            None => None,
        }
    }
}

/// Whether every value and the total of the rows can be computed without
/// overflow.
pub open spec fn rows_arithmetic_defined(rows: Seq<HoldingDTO>) -> bool {
    &&& rows_total(rows) is Some
    &&& forall|i: int| 0 <= i < rows.len() ==> (#[trigger] row_value(rows[i])) is Some
}

/// Whether the network of the first row names a network.
pub open spec fn rows_network_known(rows: Seq<HoldingDTO>) -> bool {
    network_from_id(rows[0].network@) is Some
}

/// Whether `h` is what the rows of one asset describe: the asset and rate of
/// the first row, the total of the rows, and one holding per row, in order,
/// valued at amount times rate.
pub open spec fn holdings_describe(h: AssetHoldings, rows: Seq<HoldingDTO>) -> bool {
    let first = rows[0];
    &&& h.asset_rate.asset == (Asset {
        id: first.asset_id,
        symbol: first.symbol,
        name: first.name,
        network: network_from_id(first.network@).unwrap(),
        contract_address: first.contract_address,
    })
    &&& h.asset_rate.rate_usd == first.rate_usd
    &&& Some(h.total_value_usd.parts()) == rows_total(rows)
    &&& h.holdings@.len() == rows.len()
    &&& forall|i: int|
        0 <= i < rows.len() ==> {
            &&& (#[trigger] h.holdings@[i]).id == rows[i].id
            &&& h.holdings@[i].amount == rows[i].amount
            &&& h.holdings@[i].description == rows[i].description
            &&& Some(h.holdings@[i].value_usd.parts()) == row_value(rows[i])
            &&& Some(h.holdings@[i].value_usd.parts()) == mul_parts(rows[i].rate_usd.parts(), rows[i].amount.parts())
        }
}

/// A copy of an optional text.
fn clone_description(d: &Option<String>) -> (r: Option<String>)
    ensures
        r == *d,
{
    match d {
        Some(s) => Some(s.clone()),
        None => None,
    }
}

/// The total of the rows, or `None` when a product or a partial sum overflows.
fn checked_rows_total(rows: &Vec<HoldingDTO>) -> (r: Option<Dec>)
    ensures
        opt_parts(r) == rows_total(rows@),
{
    let mut total = Dec::zero();
    let mut i: usize = 0;
    while i < rows.len()
        invariant
            i <= rows@.len(),
            rows_total(rows@.take(i as int)) == Some(total.parts()),
        decreases rows.len() - i,
    {
        proof {
            assert(rows@.take(i + 1).drop_last() =~= rows@.take(i as int));
        }
        let p = match dec_checked_mul(rows[i].rate_usd, rows[i].amount) {
            Some(p) => p,
            None => {
                proof {
                    lemma_rows_total_none_extends(rows@, i as int + 1);
                }
                return None;
            },
        };
        total = match dec_checked_add(total, p) {
            Some(t) => t,
            None => {
                proof {
                    lemma_rows_total_none_extends(rows@, i as int + 1);
                }
                return None;
            },
        };
        i = i + 1;
    }
    assert(rows@.take(rows@.len() as int) =~= rows@);
    Some(total)
}

/// Once the total of a prefix overflows, so does the total of every longer
/// prefix.
proof fn lemma_rows_total_none_extends(rows: Seq<HoldingDTO>, n: int)
    requires
        0 <= n <= rows.len(),
        rows_total(rows.take(n)) is None,
    ensures
        rows_total(rows) is None,
    decreases rows.len() - n,
{
    if n < rows.len() {
        assert(rows.take(n + 1).drop_last() =~= rows.take(n));
        lemma_rows_total_none_extends(rows, n + 1);
    } else {
        assert(rows.take(n) =~= rows);
    }
}

/// Whether every value and the total of the rows can be computed without
/// overflow, found by computing them with checked arithmetic.
pub fn holdings_arithmetic_defined(rows: &Vec<HoldingDTO>) -> (r: bool)
    ensures
        r == rows_arithmetic_defined(rows@),
{
    if checked_rows_total(rows).is_none() {
        return false;
    }
    let mut i: usize = 0;
    while i < rows.len()
        invariant
            i <= rows@.len(),
            forall|j: int| 0 <= j < i ==> (#[trigger] row_value(rows@[j])) is Some,
        decreases rows.len() - i,
    {
        if dec_checked_mul(rows[i].amount, rows[i].rate_usd).is_none() {
            assert(row_value(rows@[i as int]) is None);
            return false;
        }
        i = i + 1;
    }
    true
}

impl AssetHoldings {
    /// The holdings of one asset described by its rows: the asset and rate
    /// come from the first row, each row becomes a holding valued at amount
    /// times rate, and the total is the sum of rate times amount. Fails when
    /// the first row's network is unknown.
    pub fn try_from_rows(holdings: Vec<HoldingDTO>) -> (r: Result<AssetHoldings, DBError>)
        requires
            holdings@.len() > 0,
            rows_network_known(holdings@) ==> rows_arithmetic_defined(holdings@),
        ensures
            r is Ok <==> rows_network_known(holdings@),
            r matches Err(e) ==> e == DBError::NetworkDeserializeError(holdings@[0].network),
            r matches Ok(h) ==> holdings_describe(h, holdings@),
    {
        let first = &holdings[0];
        let network = match Network::from_id(first.network.as_str()) {
            Some(n) => n,
            None => return Err(DBError::NetworkDeserializeError(first.network.clone())),
        };
        let asset = Asset::new(
            first.asset_id,
            first.symbol.clone(),
            first.name.clone(),
            network,
            first.contract_address.clone(),
        );
        let asset_rate = AssetRate::new(asset, first.rate_usd);
        let total_value_usd = checked_rows_total(&holdings).unwrap();
        let mut values: Vec<Holding> = Vec::new();
        let mut i: usize = 0;
        while i < holdings.len()
            invariant
                i <= holdings@.len(),
                rows_arithmetic_defined(holdings@),
                values@.len() == i,
                forall|j: int|
                    0 <= j < i ==> {
                        &&& (#[trigger] values@[j]).id == holdings@[j].id
                        &&& values@[j].amount == holdings@[j].amount
                        &&& values@[j].description == holdings@[j].description
                        &&& Some(values@[j].value_usd.parts()) == row_value(holdings@[j])
                        &&& Some(values@[j].value_usd.parts()) == mul_parts(
                            holdings@[j].rate_usd.parts(),
                            holdings@[j].amount.parts(),
                        )
                    },
            decreases holdings.len() - i,
        {
            let h = &holdings[i];
            assert(row_value(holdings@[i as int]) is Some);
            let value_usd = dec_checked_mul(h.amount, h.rate_usd).unwrap();
            values.push(Holding::new(h.id, h.amount, value_usd, clone_description(&h.description)));
            i = i + 1;
        }
        Ok(AssetHoldings::new(asset_rate, total_value_usd, values))
    }

    /// As `try_from_rows`, but `None` where the arithmetic of a holding's
    /// value or of the total overflows.
    pub fn checked_try_from_rows(holdings: Vec<HoldingDTO>) -> (r: Option<Result<AssetHoldings, DBError>>)
        requires
            holdings@.len() > 0,
        ensures
            r is None <==> rows_network_known(holdings@) && !rows_arithmetic_defined(holdings@),
            r matches Some(Err(e)) ==> !rows_network_known(holdings@)
                && e == DBError::NetworkDeserializeError(holdings@[0].network),
            r matches Some(Ok(h)) ==> rows_network_known(holdings@) && holdings_describe(h, holdings@),
    {
        let known = Network::from_id(holdings[0].network.as_str()).is_some();
        if known && !holdings_arithmetic_defined(&holdings) {
            None
        } else {
            Some(AssetHoldings::try_from_rows(holdings))
        }
    }
}

/// The sum, from zero and in order, of values; `None` when a partial sum
/// overflows.
pub open spec fn values_total(values: Seq<Holding>) -> Option<(i128, u32)>
    decreases values.len(),
{
    if values.len() == 0 {
        Some((0i128, 0u32))
    } else {
        match values_total(values.drop_last()) {
            Some(acc) => add_parts(acc, values.last().value_usd.parts()),
            None => None,
        }
    }
}

/// The total of the holdings of an asset is the sum of the holdings' values.
pub proof fn lemma_total_is_sum_of_values(h: AssetHoldings, rows: Seq<HoldingDTO>)
    requires
        rows.len() > 0,
        holdings_describe(h, rows),
    ensures
        values_total(h.holdings@) == Some(h.total_value_usd.parts()),
{
    lemma_prefix_totals_agree(h, rows, rows.len() as int);
    assert(rows.take(rows.len() as int) =~= rows);
    assert(h.holdings@.take(rows.len() as int) =~= h.holdings@);
}

/// Every prefix of the rows totals as the same prefix of the holdings.
proof fn lemma_prefix_totals_agree(h: AssetHoldings, rows: Seq<HoldingDTO>, n: int)
    requires
        rows.len() > 0,
        holdings_describe(h, rows),
        0 <= n <= rows.len(),
    ensures
        values_total(h.holdings@.take(n)) == rows_total(rows.take(n)),
    decreases n,
{
    if n > 0 {
        lemma_prefix_totals_agree(h, rows, n - 1);
        assert(h.holdings@.take(n).drop_last() =~= h.holdings@.take(n - 1));
        assert(rows.take(n).drop_last() =~= rows.take(n - 1));
        assert(h.holdings@.take(n).last() == h.holdings@[n - 1]);
        assert(rows.take(n).last() == rows[n - 1]);
    } else {
        assert(h.holdings@.take(0) =~= Seq::<Holding>::empty());
        assert(rows.take(0) =~= Seq::<HoldingDTO>::empty());
    }
}

/// Whether the arithmetic of every asset's rows whose network is known can be
/// computed without overflow.
pub open spec fn groups_arithmetic_defined(rows: Seq<HoldingDTO>) -> bool {
    forall|k: u128|
        #![trigger group_of(rows, k)]
        has_key(rows, k) && rows_network_known(group_of(rows, k)) ==> rows_arithmetic_defined(group_of(rows, k))
}

/// Whether `r` is what the rows give when their assets are taken in the
/// order `ks`: `ks` lists each asset of the rows once; on success there is
/// one entry per asset, describing its rows; otherwise the error names the
/// unknown network of the first asset, in that order, whose network is
/// unknown.
pub open spec fn holdings_listed(r: Result<Vec<AssetHoldings>, DBError>, rows: Seq<HoldingDTO>, ks: Seq<u128>) -> bool {
    &&& ks.no_duplicates()
    &&& forall|k: u128| ks.contains(k) <==> #[trigger] has_key(rows, k)
    &&& r is Ok <==> forall|i: int| 0 <= i < ks.len() ==> rows_network_known(#[trigger] group_of(rows, ks[i]))
    &&& r matches Ok(v) ==> {
        &&& v@.len() == ks.len()
        &&& forall|i: int| 0 <= i < ks.len() ==> holdings_describe(#[trigger] v@[i], group_of(rows, ks[i]))
    }
    &&& r matches Err(e) ==> exists|i: int|
        {
            &&& 0 <= i < ks.len()
            &&& !rows_network_known(#[trigger] group_of(rows, ks[i]))
            &&& forall|j: int| 0 <= j < i ==> rows_network_known(#[trigger] group_of(rows, ks[j]))
            &&& e == DBError::NetworkDeserializeError(group_of(rows, ks[i])[0].network)
        }
}

/// The rows of an asset that occurs are not empty.
proof fn lemma_group_nonempty<V: GroupKey>(rows: Seq<V>, k: u128)
    requires
        has_key(rows, k),
    ensures
        group_of(rows, k).len() > 0,
{
    let i = choose|i: int| 0 <= i < rows.len() && #[trigger] rows[i].group_key() == k;
    rows.lemma_filter_contains(key_is(k), i);
    assert(group_of(rows, k).contains(rows[i]));
}

/// Whether `h` holds exactly the rows of its own asset: one holding per row
/// of that asset, in the order of the rows.
pub open spec fn entry_holds_asset_rows(h: AssetHoldings, rows: Seq<HoldingDTO>) -> bool {
    let g = rows.filter(of_asset(h.asset_rate.asset.id.0));
    &&& h.holdings@.len() == g.len()
    &&& forall|t: int| 0 <= t < g.len() ==> (#[trigger] h.holdings@[t]).id == g[t].id
}

/// Whether `v` has one entry per asset of the rows: the asset of every row
/// has an entry, no two entries are of the same asset, and each entry holds
/// exactly the rows of its asset.
pub open spec fn one_entry_per_asset(v: Seq<AssetHoldings>, rows: Seq<HoldingDTO>) -> bool {
    &&& forall|j: int|
        0 <= j < rows.len() ==> exists|i: int|
            0 <= i < v.len() && (#[trigger] v[i]).asset_rate.asset.id == (#[trigger] rows[j]).asset_id
    &&& forall|i1: int, i2: int|
        0 <= i1 < v.len() && 0 <= i2 < v.len() && i1 != i2 ==> (#[trigger] v[i1]).asset_rate.asset.id
            != (#[trigger] v[i2]).asset_rate.asset.id
    &&& forall|i: int| 0 <= i < v.len() ==> entry_holds_asset_rows(#[trigger] v[i], rows)
}

/// The entry built from the group of an asset is of that asset and holds
/// exactly its rows.
proof fn lemma_entry_of_asset(rows: Seq<HoldingDTO>, k: u128, h: AssetHoldings)
    requires
        has_key(rows, k),
        holdings_describe(h, group_of(rows, k)),
    ensures
        h.asset_rate.asset.id.0 == k,
        entry_holds_asset_rows(h, rows),
{
    lemma_group_nonempty(rows, k);
    rows.lemma_filter_pred(key_is(k), 0);
    lemma_holding_rows_group_by_asset(rows, k);
}

/// Holdings listed from rows have one entry per asset of the rows: every
/// row's asset has an entry, no asset has two, and the entry of an asset
/// holds exactly that asset's rows, in order.
pub proof fn lemma_holdings_one_entry_per_asset(
    r: Result<Vec<AssetHoldings>, DBError>,
    rows: Seq<HoldingDTO>,
    ks: Seq<u128>,
)
    requires
        holdings_listed(r, rows, ks),
    ensures
        r matches Ok(v) ==> one_entry_per_asset(v@, rows),
{
    match r {
        Ok(v) => {
            assert forall|i: int| 0 <= i < v@.len() implies (#[trigger] v@[i]).asset_rate.asset.id.0 == ks[i]
                && entry_holds_asset_rows(v@[i], rows) by {
                assert(ks.contains(ks[i]));
                lemma_entry_of_asset(rows, ks[i], v@[i]);
            }
            assert forall|j: int| 0 <= j < rows.len() implies exists|i: int|
                0 <= i < v@.len() && (#[trigger] v@[i]).asset_rate.asset.id == (#[trigger] rows[j]).asset_id by {
                let a = rows[j].asset_id.0;
                lemma_holding_rows_group_by_asset(rows, a);
                assert(has_key(rows, a));
                assert(ks.contains(a));
                let i = choose|i: int| 0 <= i < ks.len() && ks[i] == a;
                assert(v@[i].asset_rate.asset.id.0 == a);
                assert(v@[i].asset_rate.asset.id == rows[j].asset_id);
            }
            assert forall|i1: int, i2: int|
                0 <= i1 < v@.len() && 0 <= i2 < v@.len() && i1 != i2 implies (#[trigger] v@[i1]).asset_rate.asset.id
                    != (#[trigger] v@[i2]).asset_rate.asset.id by {
                assert(ks[i1] != ks[i2]);
                assert(v@[i1].asset_rate.asset.id.0 == ks[i1]);
                assert(v@[i2].asset_rate.asset.id.0 == ks[i2]);
            }
        },
        Err(_) => {},
    }
}

/// The holdings of each asset that the rows describe, asset by asset in the
/// arbitrary order of a hash map; fails on the first asset, in that order,
/// whose first row names an unknown network.
pub fn holdings_from_rows(rows: Vec<HoldingDTO>) -> (r: Result<Vec<AssetHoldings>, DBError>)
    requires
        groups_arithmetic_defined(rows@),
    ensures
        exists|ks: Seq<u128>| holdings_listed(r, rows@, ks),
        r matches Ok(v) ==> one_entry_per_asset(v@, rows@),
{
    let ghost all = rows@;
    let map = group_map_by_key(rows);
    let ghost mv = map@;
    let mut groups = hash_map_into_values(map);
    let ghost ks = choose|ks: Seq<u128>| values_in_key_order(groups@, ks, mv);
    let ghost initial = groups@;
    let mut result: Vec<AssetHoldings> = Vec::new();
    let mut i: usize = 0;
    let n = groups.len();
    while i < n
        invariant
            all == rows@,
            n == ks.len(),
            values_in_key_order(initial, ks, mv),
            forall|k: u128| #[trigger] mv.contains_key(k) <==> has_key(all, k),
            forall|k: u128| #[trigger] mv.contains_key(k) ==> mv[k]@ == group_of(all, k),
            groups_arithmetic_defined(all),
            i <= n,
            groups@ == initial.skip(i as int),
            result@.len() == i,
            forall|j: int| 0 <= j < i ==> rows_network_known(#[trigger] group_of(all, ks[j])),
            forall|j: int| 0 <= j < i ==> holdings_describe(#[trigger] result@[j], group_of(all, ks[j])),
        decreases n - i,
    {
        let group = groups.remove(0);
        proof {
            assert(initial.skip(i as int).remove(0) =~= initial.skip(i + 1));
            assert(ks.contains(ks[i as int]));
            assert(mv.contains_key(ks[i as int]));
            assert(group@ == group_of(all, ks[i as int]));
            lemma_group_nonempty(all, ks[i as int]);
        }
        match AssetHoldings::try_from_rows(group) {
            Ok(h) => {
                result.push(h);
            },
            Err(e) => {
                let r: Result<Vec<AssetHoldings>, DBError> = Err(e);
                proof {
                    assert forall|k: u128| ks.contains(k) <==> #[trigger] has_key(all, k) by {
                        assert(ks.contains(k) <==> mv.contains_key(k));
                    }
                    let w = i as int;
                    assert(0 <= w < ks.len() && !rows_network_known(group_of(all, ks[w])));
                    assert(holdings_listed(r, all, ks));
                    lemma_holdings_one_entry_per_asset(r, all, ks);
                }
                return r;
            },
        }
        i = i + 1;
    }
    proof {
        let kk = ks;
        let r: Result<Vec<AssetHoldings>, DBError> = Ok(result);
        assert(holdings_listed(r, all, kk)) by {
            assert forall|k: u128| kk.contains(k) <==> #[trigger] has_key(all, k) by {
                assert(kk.contains(k) <==> mv.contains_key(k));
            }
        }
        lemma_holdings_one_entry_per_asset(r, all, kk);
    }
    Ok(result)
}

/// A copy of a row.
fn copy_row(r: &HoldingDTO) -> (c: HoldingDTO)
    ensures
        c == *r,
{
    HoldingDTO {
        id: r.id,
        asset_id: r.asset_id,
        symbol: r.symbol.clone(),
        name: r.name.clone(),
        network: r.network.clone(),
        contract_address: r.contract_address.clone(),
        amount: r.amount,
        description: clone_description(&r.description),
        rate_usd: r.rate_usd,
    }
}

/// Copies of the rows of the asset with key `key`, in order.
fn rows_with_key(rows: &Vec<HoldingDTO>, key: u128) -> (group: Vec<HoldingDTO>)
    ensures
        group@ == group_of(rows@, key),
{
    let mut group: Vec<HoldingDTO> = Vec::new();
    let mut j: usize = 0;
    while j < rows.len()
        invariant
            j <= rows@.len(),
            group@ == rows@.take(j as int).filter(key_is(key)),
        decreases rows.len() - j,
    {
        proof {
            rows@.take(j as int).lemma_filter_push(rows@[j as int], key_is(key));
            assert(rows@.take(j as int).push(rows@[j as int]) =~= rows@.take(j + 1));
        }
        if rows[j].key() == key {
            group.push(copy_row(&rows[j]));
        }
        j = j + 1;
    }
    proof {
        assert(rows@.take(rows@.len() as int) =~= rows@);
    }
    group
}

/// Whether the rows of the asset with key `k`, when their network is known,
/// have arithmetic that can be computed.
pub open spec fn group_arithmetic_ok(rows: Seq<HoldingDTO>, k: u128) -> bool {
    rows_network_known(group_of(rows, k)) ==> rows_arithmetic_defined(group_of(rows, k))
}

/// Whether every asset's rows whose network is known can have their
/// arithmetic computed, found by computing it with checked arithmetic.
pub fn groups_arithmetic_defined_exec(rows: &Vec<HoldingDTO>) -> (r: bool)
    ensures
        r == groups_arithmetic_defined(rows@),
{
    let mut i: usize = 0;
    while i < rows.len()
        invariant
            i <= rows@.len(),
            forall|j: int| 0 <= j < i ==> group_arithmetic_ok(rows@, #[trigger] rows@[j].group_key()),
        decreases rows.len() - i,
    {
        let key = rows[i].key();
        let group = rows_with_key(rows, key);
        proof {
            assert(has_key(rows@, key));
            lemma_group_nonempty(rows@, key);
        }
        if Network::from_id(group[0].network.as_str()).is_some() && !holdings_arithmetic_defined(&group) {
            return false;
        }
        i = i + 1;
    }
    proof {
        assert forall|k: u128|
            #![trigger group_of(rows@, k)]
            has_key(rows@, k) && rows_network_known(group_of(rows@, k)) implies rows_arithmetic_defined(group_of(rows@, k)) by {
            let j = choose|j: int| 0 <= j < rows@.len() && #[trigger] rows@[j].group_key() == k;
            assert(group_arithmetic_ok(rows@, rows@[j].group_key()));
        }
    }
    true
}

/// As `holdings_from_rows`, but `None` where the arithmetic of some asset
/// whose network is known overflows.
pub fn checked_holdings_from_rows(rows: Vec<HoldingDTO>) -> (r: Option<Result<Vec<AssetHoldings>, DBError>>)
    ensures
        r is None <==> !groups_arithmetic_defined(rows@),
        r matches Some(res) ==> exists|ks: Seq<u128>| holdings_listed(res, rows@, ks),
        r matches Some(Ok(v)) ==> one_entry_per_asset(v@, rows@),
{
    if groups_arithmetic_defined_exec(&rows) {
        Some(holdings_from_rows(rows))
    } else {
        None
    }
}

} // verus!
