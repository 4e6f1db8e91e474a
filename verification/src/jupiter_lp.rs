//! The price of a pool token, recomputed from what the pool holds and from
//! the prices of those holdings that the price store already has.
//!
//! Each holding is valued at the stored price of its token, the values are
//! added up, and the sum is divided by the supply of the pool token. The
//! result is only as fresh as the least fresh of the prices it rests on: it
//! is dated by the lowest slot and by the lowest timestamp among them.

use vstd::prelude::*;
use crate::errors::ScopeError;
use crate::math::{checked_pow10, checked_rescale, lemma_pow10_monotonic, pow10, rescaled};
use crate::price::{DatedPrice, Price};
use crate::stores::{MappingEntry, OracleMappings, OraclePrices, Pubkey};

verus! {

/// The exponent of a recomputed pool token price, and of the values that
/// are added up for it.
pub const LP_PRICE_EXP: u64 = 6;

/// What a pool holds of one token.
#[derive(Clone, Copy, PartialEq, Eq, Debug)]
pub struct PoolHolding {
    /// The account that prices the token: the one that the token's entry of
    /// the mapping table names.
    pub oracle: Pubkey,
    /// The amount held, in the token's smallest unit.
    pub amount: u64,
    /// The number of decimals of the token.
    pub decimals: u8,
}

/// A pool, as read from its accounts.
#[derive(Clone, PartialEq, Eq, Debug)]
pub struct LpPool {
    pub holdings: Vec<PoolHolding>,
    /// The supply of the pool token, in its smallest unit.
    pub lp_supply: u64,
    /// The number of decimals of the pool token.
    pub lp_decimals: u8,
}

/// Whether `entry` is priced from the account `oracle`.
pub open spec fn entry_reads(entry: MappingEntry, oracle: Pubkey) -> bool {
    entry.price_account matches Some(account) && account.0@ == oracle.0@
}

/// The first entry at or after `from` that is priced from `oracle`.
pub open spec fn first_slot_from(entries: Seq<MappingEntry>, oracle: Pubkey, from: nat) -> Option<
    nat,
>
    decreases entries.len() - from,
{
    if from >= entries.len() {
        None
    } else if entry_reads(entries[from as int], oracle) {
        Some(from)
    } else {
        first_slot_from(entries, oracle, from + 1)
    }
}

/// The entry that the mapping table designates for the token priced from
/// `oracle`: the first one that reads that account.
pub open spec fn designated_slot(entries: Seq<MappingEntry>, oracle: Pubkey) -> Option<nat> {
    first_slot_from(entries, oracle, 0)
}

/// The stored price that a holding is valued at, or why it has none: no
/// entry is priced from the holding's account; the entry that is, is the
/// pool's own; the price store does not reach that entry.
pub open spec fn underlying_price(
    entries: Seq<MappingEntry>,
    prices: Seq<DatedPrice>,
    index: int,
    holding: PoolHolding,
) -> Result<DatedPrice, ScopeError> {
    match designated_slot(entries, holding.oracle) {
        None => Err(ScopeError::PoolTokenNotMapped),
        Some(slot) => if slot == index {
            Err(ScopeError::PoolReferencesItself)
        } else if slot >= prices.len() {
            Err(ScopeError::BadTokenNb)
        } else {
            Ok(prices[slot as int])
        },
    }
}

/// The stored prices of the first `n` holdings, in the order of the
/// holdings, or the failure of the first holding that has none.
pub open spec fn underlying_prices(
    entries: Seq<MappingEntry>,
    prices: Seq<DatedPrice>,
    index: int,
    holdings: Seq<PoolHolding>,
    n: nat,
) -> Result<Seq<DatedPrice>, ScopeError>
    decreases n,
{
    if n == 0 {
        Ok(Seq::empty())
    } else {
        match underlying_prices(entries, prices, index, holdings, (n - 1) as nat) {
            Err(e) => Err(e),
            Ok(found) => match underlying_price(entries, prices, index, holdings[n - 1]) {
                Err(e) => Err(e),
                Ok(price) => Ok(found.push(price)),
            },
        }
    }
}

/// The value of a holding at `price`, in units of ten to the minus
/// `LP_PRICE_EXP`, rounded down.
pub open spec fn holding_value(holding: PoolHolding, price: Price) -> nat {
    rescaled(
        (holding.amount * price.value) as nat,
        holding.decimals as nat + price.exp as nat,
        LP_PRICE_EXP as nat,
    )
}

/// The value of the first `n` holdings together, holding `i` valued at
/// `found[i]`.
pub open spec fn pool_value(holdings: Seq<PoolHolding>, found: Seq<DatedPrice>, n: nat) -> nat
    decreases n,
{
    if n == 0 {
        0
    } else {
        pool_value(holdings, found, (n - 1) as nat) + holding_value(
            holdings[n - 1],
            found[n - 1].price,
        )
    }
}

/// The lowest slot among the first `n` of `found`.
pub open spec fn oldest_slot(found: Seq<DatedPrice>, n: nat) -> u64
    decreases n,
{
    if n <= 1 {
        found[0].last_updated_slot
    } else if found[n - 1].last_updated_slot < oldest_slot(found, (n - 1) as nat) {
        found[n - 1].last_updated_slot
    } else {
        oldest_slot(found, (n - 1) as nat)
    }
}

/// The lowest timestamp among the first `n` of `found`.
pub open spec fn oldest_timestamp(found: Seq<DatedPrice>, n: nat) -> u64
    decreases n,
{
    if n <= 1 {
        found[0].unix_timestamp
    } else if found[n - 1].unix_timestamp < oldest_timestamp(found, (n - 1) as nat) {
        found[n - 1].unix_timestamp
    } else {
        oldest_timestamp(found, (n - 1) as nat)
    }
}

/// The price of the pool token of `pool`, which is entry `index` of the
/// mapping table, or why it has none: a pool without holdings or without
/// supply; a holding without a stored price; a total value that, brought to
/// the decimals of the pool token, is beyond `u128`, or a price beyond
/// `u64`.
pub open spec fn lp_price(
    entries: Seq<MappingEntry>,
    prices: Seq<DatedPrice>,
    index: int,
    pool: LpPool,
) -> Result<DatedPrice, ScopeError> {
    let holdings = pool.holdings@;
    if holdings.len() == 0 || pool.lp_supply == 0 {
        Err(ScopeError::PoolEmpty)
    } else {
        match underlying_prices(entries, prices, index, holdings, holdings.len()) {
            Err(e) => Err(e),
            Ok(found) => {
                let scaled = pool_value(holdings, found, holdings.len()) * pow10(
                    pool.lp_decimals as nat,
                );
                if scaled > u128::MAX || scaled / (pool.lp_supply as nat) > u64::MAX {
                    Err(ScopeError::IntegerOverflow)
                } else {
                    Ok(
                        DatedPrice::spec_new(
                            Price {
                                value: (scaled / (pool.lp_supply as nat)) as u64,
                                exp: LP_PRICE_EXP,
                            },
                            oldest_slot(found, holdings.len()),
                            oldest_timestamp(found, holdings.len()),
                        ),
                    )
                }
            },
        }
    }
}

/// Once a holding has no stored price, taking more holdings changes nothing.
pub proof fn lemma_underlying_failure_stays(
    entries: Seq<MappingEntry>,
    prices: Seq<DatedPrice>,
    index: int,
    holdings: Seq<PoolHolding>,
    k: nat,
    n: nat,
)
    requires
        k <= n,
        underlying_prices(entries, prices, index, holdings, k) is Err,
    ensures
        underlying_prices(entries, prices, index, holdings, n) == underlying_prices(
            entries,
            prices,
            index,
            holdings,
            k,
        ),
    decreases n,
{
    if k < n {
        lemma_underlying_failure_stays(entries, prices, index, holdings, k, (n - 1) as nat);
    }
}

/// Where all of the first `n` holdings have a stored price, the prices found
/// are those, one for one.
pub proof fn lemma_underlying_prices_are_each(
    entries: Seq<MappingEntry>,
    prices: Seq<DatedPrice>,
    index: int,
    holdings: Seq<PoolHolding>,
    n: nat,
)
    requires
        underlying_prices(entries, prices, index, holdings, n) is Ok,
    ensures
        underlying_prices(entries, prices, index, holdings, n)->Ok_0.len() == n,
        forall|i: int|
            0 <= i < n ==> #[trigger] underlying_price(entries, prices, index, holdings[i]) == Ok::<
                DatedPrice,
                ScopeError,
            >(underlying_prices(entries, prices, index, holdings, n)->Ok_0[i]),
    decreases n,
{
    if n > 0 {
        lemma_underlying_prices_are_each(entries, prices, index, holdings, (n - 1) as nat);
    }
}

/// The value of fewer holdings is no larger.
pub proof fn lemma_pool_value_grows(
    holdings: Seq<PoolHolding>,
    found: Seq<DatedPrice>,
    k: nat,
    n: nat,
)
    requires
        k <= n,
    ensures
        pool_value(holdings, found, k) <= pool_value(holdings, found, n),
    decreases n,
{
    if k < n {
        lemma_pool_value_grows(holdings, found, k, (n - 1) as nat);
    }
}

/// The lowest slot and the lowest timestamp are lower bounds of all the
/// prices they are taken over, and each is reached by one of them.
pub proof fn lemma_oldest_is_minimum(found: Seq<DatedPrice>, n: nat)
    requires
        1 <= n <= found.len(),
    ensures
        forall|i: int| 0 <= i < n ==> oldest_slot(found, n) <= (#[trigger] found[i]).last_updated_slot,
        forall|i: int| 0 <= i < n ==> oldest_timestamp(found, n) <= (#[trigger] found[i]).unix_timestamp,
        exists|i: int| 0 <= i < n && oldest_slot(found, n) == (#[trigger] found[i]).last_updated_slot,
        exists|i: int| 0 <= i < n && oldest_timestamp(found, n) == (#[trigger] found[i]).unix_timestamp,
    decreases n,
{
    if n > 1 {
        lemma_oldest_is_minimum(found, (n - 1) as nat);
        let s = choose|i: int| 0 <= i < n - 1 && oldest_slot(found, (n - 1) as nat) == (#[trigger] found[i]).last_updated_slot;
        let t = choose|i: int| 0 <= i < n - 1 && oldest_timestamp(found, (n - 1) as nat) == (#[trigger] found[i]).unix_timestamp;
        if found[n - 1].last_updated_slot < oldest_slot(found, (n - 1) as nat) {
            assert(oldest_slot(found, n) == found[n - 1].last_updated_slot);
        } else {
            assert(oldest_slot(found, n) == found[s].last_updated_slot);
        }
        if found[n - 1].unix_timestamp < oldest_timestamp(found, (n - 1) as nat) {
            assert(oldest_timestamp(found, n) == found[n - 1].unix_timestamp);
        } else {
            assert(oldest_timestamp(found, n) == found[t].unix_timestamp);
        }
    } else {
        assert(oldest_slot(found, n) == found[0].last_updated_slot);
        assert(oldest_timestamp(found, n) == found[0].unix_timestamp);
    }
}

/// The entry that the mapping table designates for the token priced from
/// `oracle`.
pub fn find_slot(oracle_mappings: &OracleMappings, oracle: &Pubkey) -> (slot: Option<usize>)
    ensures
        match slot {
            Some(j) => designated_slot(oracle_mappings.entries@, *oracle) == Some(j as nat),
            None => designated_slot(oracle_mappings.entries@, *oracle) is None,
        },
{
    let n: usize = oracle_mappings.entries.len();
    let mut i: usize = 0;
    while i < n
        invariant
            i <= n,
            n == oracle_mappings.entries@.len(),
            designated_slot(oracle_mappings.entries@, *oracle) == first_slot_from(
                oracle_mappings.entries@,
                *oracle,
                i as nat,
            ),
        decreases n - i,
    {
        let reads: bool = match &oracle_mappings.entries[i].price_account {
            Some(account) => account.equals(oracle),
            None => false,
        };
        if reads {
            return Some(i);
        }
        i = i + 1;
    }
    None
}

/// The price of the pool token of `pool`, which is entry `index` of the
/// mapping table, from the prices that `oracle_prices` holds of the pool's
/// holdings.
pub fn get_price_recomputed_scope(
    index: usize,
    pool: &LpPool,
    oracle_prices: &OraclePrices,
    oracle_mappings: &OracleMappings,
) -> (r: Result<DatedPrice, ScopeError>)
    ensures
        r == lp_price(oracle_mappings.entries@, oracle_prices.prices@, index as int, *pool),
{
    let n: usize = pool.holdings.len();
    if n == 0 || pool.lp_supply == 0 {
        return Err(ScopeError::PoolEmpty);
    }
    let ghost entries = oracle_mappings.entries@;
    let ghost prices = oracle_prices.prices@;
    let ghost holdings = pool.holdings@;
    let mut found: Vec<DatedPrice> = Vec::new();
    let mut i: usize = 0;
    while i < n
        invariant
            i <= n,
            1 <= n == holdings.len(),
            pool.lp_supply != 0,
            entries == oracle_mappings.entries@,
            prices == oracle_prices.prices@,
            holdings == pool.holdings@,
            found@.len() == i,
            underlying_prices(entries, prices, index as int, holdings, i as nat) == Ok::<
                Seq<DatedPrice>,
                ScopeError,
            >(found@),
        decreases n - i,
    {
        proof {
            if underlying_price(entries, prices, index as int, holdings[i as int]) is Err {
                lemma_underlying_failure_stays(
                    entries,
                    prices,
                    index as int,
                    holdings,
                    (i + 1) as nat,
                    n as nat,
                );
            }
        }
        let slot: usize = match find_slot(oracle_mappings, &pool.holdings[i].oracle) {
            Some(slot) => slot,
            None => {
                return Err(ScopeError::PoolTokenNotMapped);
            },
        };
        if slot == index {
            return Err(ScopeError::PoolReferencesItself);
        }
        if slot >= oracle_prices.prices.len() {
            return Err(ScopeError::BadTokenNb);
        }
        found.push(oracle_prices.prices[slot]);
        i = i + 1;
    }
    let mut total: u128 = 0;
    let mut slot_min: u64 = found[0].last_updated_slot;
    let mut time_min: u64 = found[0].unix_timestamp;
    let mut i: usize = 0;
    while i < n
        invariant
            i <= n,
            1 <= n == holdings.len(),
            pool.lp_supply != 0,
            entries == oracle_mappings.entries@,
            prices == oracle_prices.prices@,
            holdings == pool.holdings@,
            found@.len() == n,
            underlying_prices(entries, prices, index as int, holdings, n as nat) == Ok::<
                Seq<DatedPrice>,
                ScopeError,
            >(found@),
            total == pool_value(holdings, found@, i as nat),
            slot_min == oldest_slot(found@, i as nat),
            time_min == oldest_timestamp(found@, i as nat),
        decreases n - i,
    {
        let holding: PoolHolding = pool.holdings[i];
        let dated: DatedPrice = found[i];
        proof {
            lemma_pool_value_grows(holdings, found@, (i + 1) as nat, n as nat);
            lemma_pow10_monotonic(0, pool.lp_decimals as nat);
            assert(pool_value(holdings, found@, n as nat) * pow10(pool.lp_decimals as nat)
                >= pool_value(holdings, found@, n as nat)) by (nonlinear_arith)
                requires
                    pow10(pool.lp_decimals as nat) >= 1,
            ;
            assert(holding.amount * dated.price.value <= u128::MAX) by (nonlinear_arith)
                requires
                    holding.amount <= u64::MAX,
                    dated.price.value <= u64::MAX,
            ;
        }
        let product: u128 = (holding.amount as u128) * (dated.price.value as u128);
        let from_exp: u128 = holding.decimals as u128 + dated.price.exp as u128;
        let value: u128 = match checked_rescale(product, from_exp, LP_PRICE_EXP as u128) {
            Some(value) => value,
            None => {
                return Err(ScopeError::IntegerOverflow);
            },
        };
        total = match total.checked_add(value) {
            Some(sum) => sum,
            None => {
                return Err(ScopeError::IntegerOverflow);
            },
        };
        if dated.last_updated_slot < slot_min {
            slot_min = dated.last_updated_slot;
        }
        if dated.unix_timestamp < time_min {
            time_min = dated.unix_timestamp;
        }
        i = i + 1;
    }
    let ghost power = pow10(pool.lp_decimals as nat);
    let scaled: u128 = if total == 0 {
        assert(0 * power == 0);
        0
    } else {
        match checked_pow10(pool.lp_decimals as u128) {
            Some(p) => match total.checked_mul(p) {
                Some(scaled) => scaled,
                None => {
                    return Err(ScopeError::IntegerOverflow);
                },
            },
            None => {
                assert(total * power > u128::MAX) by (nonlinear_arith)
                    requires
                        total >= 1,
                        power > u128::MAX,
                ;
                return Err(ScopeError::IntegerOverflow);
            },
        }
    };
    let value: u128 = scaled / (pool.lp_supply as u128);
    if value > u64::MAX as u128 {
        return Err(ScopeError::IntegerOverflow);
    }
    Ok(DatedPrice::new(Price { value: value as u64, exp: LP_PRICE_EXP }, slot_min, time_min))
}

/// A recomputed pool price is as old as the oldest price it rests on: its
/// slot and its timestamp are no later than those of any holding's stored
/// price, and each is that of some holding's stored price.
pub proof fn lemma_composite_dated_by_oldest(
    entries: Seq<MappingEntry>,
    prices: Seq<DatedPrice>,
    index: int,
    pool: LpPool,
)
    requires
        lp_price(entries, prices, index, pool) is Ok,
    ensures
        forall|i: int|
            0 <= i < pool.holdings@.len() ==> (#[trigger] underlying_price(
                entries,
                prices,
                index,
                pool.holdings@[i],
            ) matches Ok(p) && lp_price(entries, prices, index, pool)->Ok_0.unix_timestamp
                <= p.unix_timestamp && lp_price(entries, prices, index, pool)->Ok_0.last_updated_slot
                <= p.last_updated_slot),
        exists|i: int|
            0 <= i < pool.holdings@.len() && (#[trigger] underlying_price(
                entries,
                prices,
                index,
                pool.holdings@[i],
            ) matches Ok(p) && lp_price(entries, prices, index, pool)->Ok_0.unix_timestamp
                == p.unix_timestamp),
        exists|i: int|
            0 <= i < pool.holdings@.len() && (#[trigger] underlying_price(
                entries,
                prices,
                index,
                pool.holdings@[i],
            ) matches Ok(p) && lp_price(entries, prices, index, pool)->Ok_0.last_updated_slot
                == p.last_updated_slot),
{
    let holdings = pool.holdings@;
    let n = holdings.len();
    let found = underlying_prices(entries, prices, index, holdings, n)->Ok_0;
    lemma_underlying_prices_are_each(entries, prices, index, holdings, n);
    lemma_oldest_is_minimum(found, n);
    let t = choose|i: int|
        0 <= i < n && oldest_timestamp(found, n) == (#[trigger] found[i]).unix_timestamp;
    let s = choose|i: int|
        0 <= i < n && oldest_slot(found, n) == (#[trigger] found[i]).last_updated_slot;
    assert(underlying_price(entries, prices, index, holdings[t]) == Ok::<DatedPrice, ScopeError>(
        found[t],
    ));
    assert(underlying_price(entries, prices, index, holdings[s]) == Ok::<DatedPrice, ScopeError>(
        found[s],
    ));
    assert forall|i: int| 0 <= i < n implies (#[trigger] underlying_price(
        entries,
        prices,
        index,
        holdings[i],
    ) matches Ok(p) && lp_price(entries, prices, index, pool)->Ok_0.unix_timestamp
        <= p.unix_timestamp && lp_price(entries, prices, index, pool)->Ok_0.last_updated_slot
        <= p.last_updated_slot) by {
        assert(underlying_price(entries, prices, index, holdings[i]) == Ok::<
            DatedPrice,
            ScopeError,
        >(found[i]));
    }
}

/// Of two holdings, the older stored price dates the recomputed price: the
/// timestamp of the result is the lower of the two timestamps, never the
/// higher.
pub proof fn lemma_composite_of_two_dated_by_older(
    entries: Seq<MappingEntry>,
    prices: Seq<DatedPrice>,
    index: int,
    pool: LpPool,
)
    requires
        pool.holdings@.len() == 2,
        lp_price(entries, prices, index, pool) is Ok,
    ensures
        underlying_price(entries, prices, index, pool.holdings@[0]) matches Ok(a)
            && underlying_price(entries, prices, index, pool.holdings@[1]) matches Ok(b) && lp_price(
            entries,
            prices,
            index,
            pool,
        )->Ok_0.unix_timestamp == (if a.unix_timestamp <= b.unix_timestamp {
            a.unix_timestamp
        } else {
            b.unix_timestamp
        }),
{
    lemma_composite_dated_by_oldest(entries, prices, index, pool);
    assert(underlying_price(entries, prices, index, pool.holdings@[0]) is Ok);
    assert(underlying_price(entries, prices, index, pool.holdings@[1]) is Ok);
}

} // verus!
