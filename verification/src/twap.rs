//! The time-weighted average of an entry's observed prices.
//!
//! An observation holds from its own time until the next observation, the
//! latest one until the clock's time. The average weighs each observed
//! price by the time for which it held, and is expressed in the exponent of
//! the latest observation. It is dated by that latest observation.

use vstd::prelude::*;
use crate::errors::ScopeError;
use crate::math::{checked_rescale, rescaled};
use crate::oracle_type::OracleType;
use crate::price::{DatedPrice, Price};
use crate::stores::{Clock, MappingEntry, OracleMappings, OracleTwaps, TwapHistory, TwapSample, MAX_ENTRIES};

verus! {

/// The time until which observation `i` held: the time of the observation
/// after it, or `now` for the latest.
pub open spec fn interval_end(samples: Seq<TwapSample>, now: nat, i: int) -> nat {
    if i + 1 < samples.len() {
        samples[i + 1].unix_timestamp as nat
    } else {
        now
    }
}

/// No observation is later than the one that follows it, nor the latest
/// later than `now`.
pub open spec fn in_time_order(samples: Seq<TwapSample>, now: nat) -> bool {
    forall|i: int|
        0 <= i < samples.len() ==> samples[i].unix_timestamp <= #[trigger] interval_end(
            samples,
            now,
            i,
        )
}

/// The time for which observation `i` held.
pub open spec fn held_for(samples: Seq<TwapSample>, now: nat, i: int) -> nat {
    (interval_end(samples, now, i) - samples[i].unix_timestamp) as nat
}

/// The price of observation `i` in exponent `exp`, times the time for which
/// it held.
pub open spec fn weighted(samples: Seq<TwapSample>, now: nat, exp: nat, i: int) -> nat {
    rescaled(samples[i].price.value as nat, samples[i].price.exp as nat, exp) * held_for(
        samples,
        now,
        i,
    )
}

/// The sum of `weighted` over the first `n` observations.
pub open spec fn weighted_sum(samples: Seq<TwapSample>, now: nat, exp: nat, n: nat) -> nat
    decreases n,
{
    if n == 0 {
        0
    } else {
        weighted_sum(samples, now, exp, (n - 1) as nat) + weighted(samples, now, exp, n - 1)
    }
}

/// The value of the time-weighted average of `samples` at `now`, in the
/// exponent of the latest observation, rounded down. Where no time has
/// passed since the first observation, it is the latest observed value.
pub open spec fn average_value(samples: Seq<TwapSample>, now: nat) -> nat
    recommends
        samples.len() > 0,
        in_time_order(samples, now),
{
    if now <= samples[0].unix_timestamp {
        samples.last().price.value as nat
    } else {
        weighted_sum(samples, now, samples.last().price.exp as nat, samples.len()) / ((now
            - samples[0].unix_timestamp) as nat)
    }
}

/// The time-weighted average of `samples` at `now`, or why there is none:
/// no observation at all; observations out of time order; a weighted sum
/// beyond `u128` or an average beyond `u64`.
pub open spec fn average_of(samples: Seq<TwapSample>, now: nat) -> Result<Price, ScopeError> {
    if samples.len() == 0 {
        Err(ScopeError::TwapNotEnoughSamples)
    } else if !in_time_order(samples, now) {
        Err(ScopeError::TwapSamplesOutOfOrder)
    } else if weighted_sum(samples, now, samples.last().price.exp as nat, samples.len())
        > u128::MAX || average_value(samples, now) > u64::MAX {
        Err(ScopeError::IntegerOverflow)
    } else {
        Ok(Price { value: average_value(samples, now) as u64, exp: samples.last().price.exp })
    }
}

/// In a history in time order no observation is later than `now`.
pub proof fn lemma_sample_not_after_now(samples: Seq<TwapSample>, now: nat, i: int)
    requires
        in_time_order(samples, now),
        0 <= i < samples.len(),
    ensures
        samples[i].unix_timestamp <= now,
    decreases samples.len() - i,
{
    assert(samples[i].unix_timestamp <= interval_end(samples, now, i));
    if i + 1 < samples.len() {
        lemma_sample_not_after_now(samples, now, i + 1);
    }
}

/// The weighted sum over fewer observations is no larger.
pub proof fn lemma_weighted_sum_grows(
    samples: Seq<TwapSample>,
    now: nat,
    exp: nat,
    k: nat,
    n: nat,
)
    requires
        k <= n,
    ensures
        weighted_sum(samples, now, exp, k) <= weighted_sum(samples, now, exp, n),
    decreases n,
{
    if k < n {
        lemma_weighted_sum_grows(samples, now, exp, k, (n - 1) as nat);
    }
}

/// The time-weighted average of a history at the time `now`.
pub fn average_price(samples: &Vec<TwapSample>, now: u64) -> (r: Result<Price, ScopeError>)
    ensures
        r == average_of(samples@, now as nat),
{
    let n: usize = samples.len();
    if n == 0 {
        return Err(ScopeError::TwapNotEnoughSamples);
    }
    let mut i: usize = 0;
    while i < n
        invariant
            i <= n,
            n == samples@.len(),
            forall|k: int|
                0 <= k < i ==> samples@[k].unix_timestamp <= #[trigger] interval_end(
                    samples@,
                    now as nat,
                    k,
                ),
        decreases n - i,
    {
        let end: u64 = if i + 1 < n {
            samples[i + 1].unix_timestamp
        } else {
            now
        };
        if samples[i].unix_timestamp > end {
            assert(samples@[i as int].unix_timestamp > interval_end(samples@, now as nat, i as int));
            return Err(ScopeError::TwapSamplesOutOfOrder);
        }
        i = i + 1;
    }
    let exp: u64 = samples[n - 1].price.exp;
    let mut sum: u128 = 0;
    let mut i: usize = 0;
    while i < n
        invariant
            i <= n,
            n == samples@.len(),
            n > 0,
            exp == samples@.last().price.exp,
            in_time_order(samples@, now as nat),
            sum == weighted_sum(samples@, now as nat, exp as nat, i as nat),
        decreases n - i,
    {
        let end: u64 = if i + 1 < n {
            samples[i + 1].unix_timestamp
        } else {
            now
        };
        let ghost scaled_spec = rescaled(
            samples@[i as int].price.value as nat,
            samples@[i as int].price.exp as nat,
            exp as nat,
        );
        proof {
            assert(samples@[i as int].unix_timestamp <= interval_end(samples@, now as nat, i as int));
            lemma_weighted_sum_grows(samples@, now as nat, exp as nat, (i + 1) as nat, n as nat);
        }
        let held: u64 = end - samples[i].unix_timestamp;
        if held > 0 {
            let scaled: u128 = match checked_rescale(
                samples[i].price.value as u128,
                samples[i].price.exp as u128,
                exp as u128,
            ) {
                Some(v) => v,
                None => {
                    assert(scaled_spec * held >= scaled_spec) by (nonlinear_arith)
                        requires
                            held >= 1,
                    ;
                    return Err(ScopeError::IntegerOverflow);
                },
            };
            let term: u128 = match scaled.checked_mul(held as u128) {
                Some(v) => v,
                None => {
                    return Err(ScopeError::IntegerOverflow);
                },
            };
            sum = match sum.checked_add(term) {
                Some(v) => v,
                None => {
                    return Err(ScopeError::IntegerOverflow);
                },
            };
        } else {
            assert(scaled_spec * 0 == 0);
        }
        i = i + 1;
    }
    proof {
        lemma_sample_not_after_now(samples@, now as nat, 0);
    }
    let span: u64 = now - samples[0].unix_timestamp;
    let value: u128 = if span == 0 {
        samples[n - 1].price.value as u128
    } else {
        sum / (span as u128)
    };
    if value > u64::MAX as u128 {
        return Err(ScopeError::IntegerOverflow);
    }
    Ok(Price { value: value as u64, exp })
}

/// Whether the prices of the kind stored as `price_type` can be averaged:
/// those of every kind in use but the average itself.
pub open spec fn source_is_eligible(price_type: u8) -> bool {
    OracleType::from_wire_value(price_type) matches Some(kind) && !kind.spec_is_deprecated()
        && !kind.spec_is_twap()
}

/// The time-weighted average that entry `index` stands for, at the time of
/// `clock`, or why there is none. The average is taken over the history of
/// the entry that `index` names as its source, and is dated by the latest
/// observation in it.
pub open spec fn twap_price(
    entries: Seq<MappingEntry>,
    twaps: Seq<TwapHistory>,
    index: int,
    clock: Clock,
) -> Result<DatedPrice, ScopeError> {
    if index >= entries.len() {
        Err(ScopeError::BadTokenNb)
    } else if clock.unix_timestamp < 0 {
        Err(ScopeError::OutOfRangeIntegralConversion)
    } else {
        let source = entries[index].twap_source as int;
        if source >= entries.len() || source >= twaps.len() {
            Err(ScopeError::TwapSourceIndexOutOfRange)
        } else if !source_is_eligible(entries[source].price_type) {
            Err(ScopeError::TwapSourceNotEligible)
        } else {
            let samples = twaps[source].samples@;
            match average_of(samples, clock.unix_timestamp as nat) {
                Err(e) => Err(e),
                Ok(price) => Ok(
                    DatedPrice::spec_new(
                        price,
                        samples.last().slot,
                        samples.last().unix_timestamp,
                    ),
                ),
            }
        }
    }
}

/// What admitting a time-weighted average with source `twap_source` gives:
/// the source has to lie inside a full mapping table.
pub open spec fn twap_source_admitted(twap_source: u16) -> Result<(), ScopeError> {
    if twap_source as int >= MAX_ENTRIES {
        Err(ScopeError::TwapSourceIndexOutOfRange)
    } else {
        Ok(())
    }
}

/// Whether the prices of the kind stored as `price_type` can be averaged.
pub fn is_eligible_source(price_type: u8) -> (eligible: bool)
    ensures
        eligible == source_is_eligible(price_type),
{
    match OracleType::from_u8(price_type) {
        Some(kind) => !kind.is_deprecated() && !kind.is_twap(),
        None => false,
    }
}

/// Checks the source of a time-weighted average before the entry is
/// written to the mapping table.
pub fn validate_price_account(twap_source: u16) -> (r: Result<(), ScopeError>)
    ensures
        r == twap_source_admitted(twap_source),
{
    if twap_source as usize >= MAX_ENTRIES {
        return Err(ScopeError::TwapSourceIndexOutOfRange);
    }
    Ok(())
}

/// The time-weighted average that entry `index` of the mapping table
/// stands for, at the time of `clock`.
pub fn get_price(
    oracle_mappings: &OracleMappings,
    oracle_twaps: &OracleTwaps,
    index: usize,
    clock: &Clock,
) -> (r: Result<DatedPrice, ScopeError>)
    ensures
        r == twap_price(oracle_mappings.entries@, oracle_twaps.twaps@, index as int, *clock),
{
    if index >= oracle_mappings.entries.len() {
        return Err(ScopeError::BadTokenNb);
    }
    if clock.unix_timestamp < 0 {
        return Err(ScopeError::OutOfRangeIntegralConversion);
    }
    let now: u64 = clock.unix_timestamp as u64;
    let source: usize = oracle_mappings.entries[index].twap_source as usize;
    if source >= oracle_mappings.entries.len() || source >= oracle_twaps.twaps.len() {
        return Err(ScopeError::TwapSourceIndexOutOfRange);
    }
    if !is_eligible_source(oracle_mappings.entries[source].price_type) {
        return Err(ScopeError::TwapSourceNotEligible);
    }
    let samples = &oracle_twaps.twaps[source].samples;
    let price: Price = match average_price(samples, now) {
        Ok(price) => price,
        Err(e) => {
            return Err(e);
        },
    };
    let latest = samples[samples.len() - 1];
    Ok(DatedPrice::new(price, latest.slot, latest.unix_timestamp))
}

} // verus!
