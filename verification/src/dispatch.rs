//! The price request: from a kind to the routine that serves it, and from
//! what that routine answered to the dated price or the failure that the
//! request returns.
//!
//! The routines that read a feed's account live outside the library. A
//! request reaches them through the two sources that it is given: one that
//! answers with a price, one that answers with a pool's holdings. The
//! library chooses the routine, says how many accounts it may draw, and
//! settles the answer.

use vstd::prelude::*;
use crate::errors::ScopeError;
use crate::fixed_price::literal_price;
use crate::jupiter_lp::{get_price_recomputed_scope, lp_price, LpPool};
use crate::oracle_type::OracleType;
use crate::price::DatedPrice;
use crate::routes::{Feed, Route};
use crate::stores::{Clock, MappingEntry, OracleMappings, OraclePrices, OracleTwaps, TwapHistory};
use crate::twap::twap_price;

verus! {

/// The accounts that came with a request beside the primary one and that
/// nothing has drawn yet.
#[derive(Clone, Copy, PartialEq, Eq, Debug)]
pub struct RemainingAccounts {
    pub count: usize,
}

/// What a feed is asked.
#[derive(Clone, Copy, PartialEq, Eq, Debug)]
pub struct FeedRequest {
    /// The routine that is to answer.
    pub feed: Feed,
    /// The time of the request.
    pub clock: Clock,
    /// How many accounts the routine may draw beside the primary one.
    pub accounts_offered: usize,
}

/// What a feed answered.
#[derive(Clone, Copy, PartialEq, Eq, Debug)]
pub struct FeedReply {
    /// The price, or the routine's own code for its failure.
    pub price: Result<DatedPrice, u32>,
    /// How many accounts the routine drew beside the primary one.
    pub accounts_used: usize,
}

/// What reading a pool answered.
#[derive(PartialEq, Eq, Debug)]
pub struct PoolReply {
    /// The pool, or the reader's own code for its failure.
    pub pool: Result<LpPool, u32>,
    /// How many accounts the reader drew beside the primary one.
    pub accounts_used: usize,
}

/// What the check for leftover accounts gives: any account left is one too
/// many.
pub open spec fn context_checked(remaining: int) -> Result<(), ScopeError> {
    if remaining != 0 {
        Err(ScopeError::UnexpectedAccount)
    } else {
        Ok(())
    }
}

/// How many accounts a feed is offered of `remaining`: all of them where
/// it draws accounts, none where it does not.
pub open spec fn accounts_offered(feed: Feed, remaining: usize) -> usize {
    if feed.spec_draws_extra_accounts() {
        remaining
    } else {
        0
    }
}

/// What a request of kind `kind` returns once `feed` has answered `reply`,
/// and how many of `remaining` accounts are left. A routine that drew more
/// than it was offered has broken the protocol, and the accounts stay as
/// they were. A failure of the routine is handed on under the kind's name,
/// never dropped.
pub open spec fn feed_outcome(kind: OracleType, feed: Feed, reply: FeedReply, remaining: usize) -> (
    Result<DatedPrice, ScopeError>,
    usize,
) {
    if reply.accounts_used > accounts_offered(feed, remaining) {
        (Err(ScopeError::AccountsAndTokenMismatch), remaining)
    } else {
        (
            match reply.price {
                Ok(price) => Ok(price),
                Err(code) => Err(ScopeError::SourceFailed { kind, code }),
            },
            (remaining - reply.accounts_used) as usize,
        )
    }
}

/// What a request for a pool token recomputed from the price store
/// returns once the pool was read as `reply`, and how many of `remaining`
/// accounts are left.
pub open spec fn pool_outcome(
    reply: PoolReply,
    remaining: usize,
    entries: Seq<MappingEntry>,
    prices: Seq<DatedPrice>,
    index: int,
) -> (Result<DatedPrice, ScopeError>, usize) {
    if reply.accounts_used > remaining {
        (Err(ScopeError::AccountsAndTokenMismatch), remaining)
    } else {
        (
            match reply.pool {
                Ok(pool) => lp_price(entries, prices, index, pool),
                Err(code) => Err(
                    ScopeError::SourceFailed { kind: OracleType::JupiterLpScope, code },
                ),
            },
            (remaining - reply.accounts_used) as usize,
        )
    }
}

/// Fails where accounts are left that the request has not drawn. To be
/// called once, when the whole request is done.
pub fn check_context(remaining_accounts: &RemainingAccounts) -> (r: Result<(), ScopeError>)
    ensures
        r == context_checked(remaining_accounts.count as int),
{
    if remaining_accounts.count != 0 {
        return Err(ScopeError::UnexpectedAccount);
    }
    Ok(())
}

/// Settles the answer of a feed: takes the accounts it drew from
/// `extra_accounts` and returns its price, or its failure under the name
/// of `price_type`.
pub fn settle_feed(
    price_type: OracleType,
    feed: Feed,
    reply: &FeedReply,
    extra_accounts: &mut RemainingAccounts,
) -> (r: Result<DatedPrice, ScopeError>)
    ensures
        (r, final(extra_accounts).count) == feed_outcome(
            price_type,
            feed,
            *reply,
            old(extra_accounts).count,
        ),
{
    let offered: usize = if feed.draws_extra_accounts() {
        extra_accounts.count
    } else {
        0
    };
    if reply.accounts_used > offered {
        return Err(ScopeError::AccountsAndTokenMismatch);
    }
    extra_accounts.count = extra_accounts.count - reply.accounts_used;
    match reply.price {
        Ok(price) => Ok(price),
        Err(code) => Err(ScopeError::SourceFailed { kind: price_type, code }),
    }
}

/// Settles the reading of a pool: takes the accounts it drew from
/// `extra_accounts` and recomputes the pool token's price from the price
/// store, or returns the reader's failure.
pub fn settle_pool(
    reply: &PoolReply,
    extra_accounts: &mut RemainingAccounts,
    oracle_mappings: &OracleMappings,
    oracle_prices: &OraclePrices,
    index: usize,
) -> (r: Result<DatedPrice, ScopeError>)
    ensures
        (r, final(extra_accounts).count) == pool_outcome(
            *reply,
            old(extra_accounts).count,
            oracle_mappings.entries@,
            oracle_prices.prices@,
            index as int,
        ),
{
    if reply.accounts_used > extra_accounts.count {
        return Err(ScopeError::AccountsAndTokenMismatch);
    }
    extra_accounts.count = extra_accounts.count - reply.accounts_used;
    match &reply.pool {
        Ok(pool) => get_price_recomputed_scope(index, pool, oracle_prices, oracle_mappings),
        Err(code) => Err(ScopeError::SourceFailed { kind: OracleType::JupiterLpScope, code: *code }),
    }
}

/// What a request of kind `kind` returns, and how many of `remaining`
/// accounts are left, where a feed asked for the price answers
/// `feed_reply` and a reader asked for the pool answers `pool_reply`. Each
/// kind looks at the one answer that its route asks for, or at neither.
pub open spec fn price_outcome(
    kind: OracleType,
    feed_reply: FeedReply,
    pool_reply: PoolReply,
    remaining: usize,
    clock: Clock,
    twaps: Seq<TwapHistory>,
    entries: Seq<MappingEntry>,
    prices: Seq<DatedPrice>,
    index: int,
) -> (Result<DatedPrice, ScopeError>, usize) {
    match kind.spec_price_route() {
        Some(Route::Feed(feed)) => feed_outcome(kind, feed, feed_reply, remaining),
        Some(Route::PoolFromStore) => pool_outcome(pool_reply, remaining, entries, prices, index),
        Some(Route::Twap) => (twap_price(entries, twaps, index, clock), remaining),
        Some(Route::Literal) => (literal_price(entries, index, clock), remaining),
        None => (Err(ScopeError::BadTokenType), remaining),
    }
}

/// The price of a token of kind `price_type`, which is entry `index` of
/// the mapping table.
///
/// `base_account` stands for the primary account as a feed reads it, and
/// `pool_account` for the same account as a pool is read from it; each is
/// called at most once, and only for a kind that is served that way. A
/// feed is asked with the routine and direction of the kind, with `clock`,
/// and with the number of accounts it may draw; a pool reader with the
/// number of accounts it may draw. The accounts that were drawn leave
/// `extra_accounts`; no store is written.
///
/// A retired kind must not be asked for.
pub fn get_price<F, P>(
    price_type: OracleType,
    base_account: F,
    pool_account: P,
    extra_accounts: &mut RemainingAccounts,
    clock: &Clock,
    oracle_twaps: &OracleTwaps,
    oracle_mappings: &OracleMappings,
    oracle_prices: &OraclePrices,
    index: usize,
) -> (r: Result<DatedPrice, ScopeError>) where
    F: Fn(FeedRequest) -> FeedReply,
    P: Fn(usize) -> PoolReply,

    requires
        !price_type.is_deprecated(),
        price_type.spec_price_route() matches Some(Route::Feed(feed)) ==> call_requires(
            base_account,
            (FeedRequest {
                feed,
                clock: *clock,
                accounts_offered: accounts_offered(feed, old(extra_accounts).count),
            },),
        ),
        price_type.spec_price_route() == Some(Route::PoolFromStore) ==> call_requires(
            pool_account,
            (old(extra_accounts).count,),
        ),
    ensures
        exists|feed_reply: FeedReply, pool_reply: PoolReply|
            {
                &&& price_type.spec_price_route() matches Some(Route::Feed(feed))
                    ==> call_ensures(
                    base_account,
                    (FeedRequest {
                        feed,
                        clock: *clock,
                        accounts_offered: accounts_offered(feed, old(extra_accounts).count),
                    },),
                    feed_reply,
                )
                &&& price_type.spec_price_route() == Some(Route::PoolFromStore) ==> call_ensures(
                    pool_account,
                    (old(extra_accounts).count,),
                    pool_reply,
                )
                &&& (r, final(extra_accounts).count) == #[trigger] price_outcome(
                    price_type,
                    feed_reply,
                    pool_reply,
                    old(extra_accounts).count,
                    *clock,
                    oracle_twaps.twaps@,
                    oracle_mappings.entries@,
                    oracle_prices.prices@,
                    index as int,
                )
            },
{
    let ghost no_feed = FeedReply { price: Err(0), accounts_used: 0 };
    let ghost no_pool = PoolReply { pool: Err(0), accounts_used: 0 };
    let ghost before = extra_accounts.count;
    match price_type.price_route() {
        Route::Feed(feed) => {
            let offered: usize = if feed.draws_extra_accounts() {
                extra_accounts.count
            } else {
                0
            };
            let reply = base_account(FeedRequest { feed, clock: *clock, accounts_offered: offered });
            let r = settle_feed(price_type, feed, &reply, extra_accounts);
            assert((r, extra_accounts.count) == price_outcome(
                price_type,
                reply,
                no_pool,
                before,
                *clock,
                oracle_twaps.twaps@,
                oracle_mappings.entries@,
                oracle_prices.prices@,
                index as int,
            ));
            r
        },
        Route::PoolFromStore => {
            let reply = pool_account(extra_accounts.count);
            let r = settle_pool(&reply, extra_accounts, oracle_mappings, oracle_prices, index);
            assert((r, extra_accounts.count) == price_outcome(
                price_type,
                no_feed,
                reply,
                before,
                *clock,
                oracle_twaps.twaps@,
                oracle_mappings.entries@,
                oracle_prices.prices@,
                index as int,
            ));
            r
        },
        Route::Twap => {
            let r = crate::twap::get_price(oracle_mappings, oracle_twaps, index, clock);
            assert((r, extra_accounts.count) == price_outcome(
                price_type,
                no_feed,
                no_pool,
                before,
                *clock,
                oracle_twaps.twaps@,
                oracle_mappings.entries@,
                oracle_prices.prices@,
                index as int,
            ));
            r
        },
        Route::Literal => {
            let r = crate::fixed_price::get_price(oracle_mappings, index, clock);
            assert((r, extra_accounts.count) == price_outcome(
                price_type,
                no_feed,
                no_pool,
                before,
                *clock,
                oracle_twaps.twaps@,
                oracle_mappings.entries@,
                oracle_prices.prices@,
                index as int,
            ));
            r
        },
    }
}

} // verus!
