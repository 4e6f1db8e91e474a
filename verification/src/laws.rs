//! What holds of the request and of the admission together, for every
//! kind in use and whatever the sources outside the library answer.

use vstd::prelude::*;
use crate::dispatch::{accounts_offered, context_checked, price_outcome, FeedReply, PoolReply};
use crate::errors::ScopeError;
use crate::jupiter_lp::{underlying_prices, PoolHolding};
use crate::oracle_type::OracleType;
use crate::price::{lemma_payload_always_decodes, DatedPrice, Price};
use crate::routes::Route;
use crate::stores::{Clock, MappingEntry, Pubkey, TwapHistory, MAX_ENTRIES};
use crate::validation::admission_outcome;

verus! {

/// How many accounts a request of kind `kind` uses beside the primary one:
/// what its feed or its pool reader drew, and none for a kind that is
/// served without accounts.
pub open spec fn accounts_used(kind: OracleType, feed_reply: FeedReply, pool_reply: PoolReply) -> nat {
    match kind.spec_price_route() {
        Some(Route::Feed(feed)) => if feed.spec_draws_extra_accounts() {
            feed_reply.accounts_used as nat
        } else {
            0
        },
        Some(Route::PoolFromStore) => pool_reply.accounts_used as nat,
        _ => 0,
    }
}

/// A failure that only a caller's handling of the accounts can cause.
pub open spec fn is_protocol_error(e: ScopeError) -> bool {
    e == ScopeError::AccountsAndTokenMismatch || e == ScopeError::UnexpectedAccount
}

/// Accounts beyond those that the kind uses stay undrawn, and the check
/// for leftover accounts that closes the request then fails: for every
/// kind in use, whatever the sources answer and whatever the request
/// itself returns.
pub proof fn lemma_surplus_accounts_are_refused(
    kind: OracleType,
    feed_reply: FeedReply,
    pool_reply: PoolReply,
    remaining: usize,
    clock: Clock,
    twaps: Seq<TwapHistory>,
    entries: Seq<MappingEntry>,
    prices: Seq<DatedPrice>,
    index: int,
)
    requires
        !kind.spec_is_deprecated(),
        remaining > accounts_used(kind, feed_reply, pool_reply),
    ensures
        ({
            let left = price_outcome(
                kind,
                feed_reply,
                pool_reply,
                remaining,
                clock,
                twaps,
                entries,
                prices,
                index,
            ).1;
            &&& left >= remaining - accounts_used(kind, feed_reply, pool_reply)
            &&& left > 0
            &&& context_checked(left as int) == Err::<(), ScopeError>(ScopeError::UnexpectedAccount)
        }),
{
}

/// A request draws exactly the accounts that its kind uses, and a request
/// that was given exactly those passes the check for leftover accounts.
pub proof fn lemma_exact_accounts_are_drained(
    kind: OracleType,
    feed_reply: FeedReply,
    pool_reply: PoolReply,
    remaining: usize,
    clock: Clock,
    twaps: Seq<TwapHistory>,
    entries: Seq<MappingEntry>,
    prices: Seq<DatedPrice>,
    index: int,
)
    requires
        !kind.spec_is_deprecated(),
        remaining == accounts_used(kind, feed_reply, pool_reply),
        kind.spec_price_route() matches Some(Route::Feed(feed)) ==> feed_reply.accounts_used
            <= accounts_offered(feed, remaining),
    ensures
        context_checked(
            price_outcome(
                kind,
                feed_reply,
                pool_reply,
                remaining,
                clock,
                twaps,
                entries,
                prices,
                index,
            ).1 as int,
        ) is Ok,
{
}

/// A constant price offered with an account is refused as not valid,
/// whatever the payload holds, and whatever else is offered with it.
pub proof fn lemma_literal_with_account_is_refused(
    verdict: Result<(), u32>,
    twap_source: u16,
    payload: Seq<u8>,
)
    ensures
        admission_outcome(OracleType::FixedPrice, true, verdict, twap_source, payload) == Err::<
            (),
            ScopeError,
        >(ScopeError::PriceNotValid),
{
}

/// A constant price offered without an account is refused exactly where
/// its payload does not decode, and then as an invalid constant price.
pub proof fn lemma_literal_without_account(
    verdict: Result<(), u32>,
    twap_source: u16,
    payload: Seq<u8>,
)
    ensures
        admission_outcome(OracleType::FixedPrice, false, verdict, twap_source, payload) == (
        if Price::decoded(payload) is None {
            Err::<(), ScopeError>(ScopeError::FixedPriceInvalid)
        } else {
            Ok::<(), ScopeError>(())
        }),
{
}

/// Pricing a pool from the price store never fails for the handling of
/// accounts, for a payload or for the source of an average.
pub proof fn lemma_underlying_failures(
    entries: Seq<MappingEntry>,
    prices: Seq<DatedPrice>,
    index: int,
    holdings: Seq<PoolHolding>,
    n: nat,
)
    ensures
        underlying_prices(entries, prices, index, holdings, n) matches Err(e) ==> e
            == ScopeError::PoolTokenNotMapped || e == ScopeError::PoolReferencesItself || e
            == ScopeError::BadTokenNb,
    decreases n,
{
    if n > 0 {
        lemma_underlying_failures(entries, prices, index, holdings, (n - 1) as nat);
    }
}

/// A configuration that was admitted can be priced once it stands in the
/// mapping table: for every kind in use, where the sources draw no more
/// accounts than they are offered, the request does not fail for the
/// handling of accounts, nor for a payload that does not decode, nor, in
/// full tables, for the source of an average out of range.
pub proof fn lemma_admitted_is_dispatchable(
    kind: OracleType,
    price_account: Option<Pubkey>,
    verdict: Result<(), u32>,
    twap_source: u16,
    payload: [u8; 20],
    feed_reply: FeedReply,
    pool_reply: PoolReply,
    remaining: usize,
    clock: Clock,
    twaps: Seq<TwapHistory>,
    entries: Seq<MappingEntry>,
    prices: Seq<DatedPrice>,
    index: int,
)
    requires
        !kind.spec_is_deprecated(),
        admission_outcome(kind, price_account is Some, verdict, twap_source, payload@) is Ok,
        0 <= index < entries.len(),
        entries[index].price_account == price_account,
        entries[index].price_type == kind.wire_value(),
        entries[index].twap_source == twap_source,
        entries[index].generic@ == payload@,
        kind.spec_price_route() matches Some(Route::Feed(feed)) ==> feed_reply.accounts_used
            <= accounts_offered(feed, remaining),
        kind.spec_price_route() == Some(Route::PoolFromStore) ==> pool_reply.accounts_used
            <= remaining,
    ensures
        ({
            let outcome = price_outcome(
                kind,
                feed_reply,
                pool_reply,
                remaining,
                clock,
                twaps,
                entries,
                prices,
                index,
            ).0;
            &&& outcome matches Err(e) ==> !is_protocol_error(e) && e
                != ScopeError::FixedPriceInvalid
            &&& entries.len() == MAX_ENTRIES && twaps.len() == MAX_ENTRIES ==> outcome != Err::<
                DatedPrice,
                ScopeError,
            >(ScopeError::TwapSourceIndexOutOfRange)
        }),
{
    lemma_payload_always_decodes(payload@);
    if kind.spec_price_route() == Some(Route::PoolFromStore) {
        if pool_reply.pool is Ok {
            let pool = pool_reply.pool->Ok_0;
            lemma_underlying_failures(
                entries,
                prices,
                index,
                pool.holdings@,
                pool.holdings@.len(),
            );
        }
    }
}

} // verus!
