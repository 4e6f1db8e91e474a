//! The constant price: a price written into the payload of its own mapping
//! entry. It reads no account, and it is fresh by definition: it is dated
//! by the clock of the request.

use vstd::prelude::*;
use crate::errors::ScopeError;
use crate::price::{DatedPrice, Price};
use crate::stores::{Clock, MappingEntry, OracleMappings};

verus! {

/// What admitting a constant price gives: an account beside it is refused,
/// whatever the payload holds; without one, the payload has to decode.
pub open spec fn literal_admitted(has_account: bool, decoded: Option<Price>) -> Result<
    (),
    ScopeError,
> {
    if has_account {
        Err(ScopeError::PriceNotValid)
    } else if decoded is None {
        Err(ScopeError::FixedPriceInvalid)
    } else {
        Ok(())
    }
}

/// The constant price of entry `index`, dated by `clock`, or why there is
/// none: no such entry; a clock before the epoch; a payload that does not
/// decode.
pub open spec fn literal_price(entries: Seq<MappingEntry>, index: int, clock: Clock) -> Result<
    DatedPrice,
    ScopeError,
> {
    if index >= entries.len() {
        Err(ScopeError::BadTokenNb)
    } else if clock.unix_timestamp < 0 {
        Err(ScopeError::OutOfRangeIntegralConversion)
    } else {
        match Price::decoded(entries[index].generic@) {
            None => Err(ScopeError::FixedPriceInvalid),
            Some(price) => Ok(
                DatedPrice::spec_new(price, clock.slot, clock.unix_timestamp as u64),
            ),
        }
    }
}

/// Decides the admission of a constant price from whether an account was
/// given and from what the payload decoded to.
pub fn validate_decoded(has_account: bool, decoded: Option<Price>) -> (r: Result<(), ScopeError>)
    ensures
        r == literal_admitted(has_account, decoded),
{
    if has_account {
        return Err(ScopeError::PriceNotValid);
    }
    match decoded {
        Some(_) => Ok(()),
        None => Err(ScopeError::FixedPriceInvalid),
    }
}

/// Checks a constant price before the entry is written to the mapping
/// table.
pub fn validate_price_account(has_account: bool, generic_data: &[u8; 20]) -> (r: Result<
    (),
    ScopeError,
>)
    ensures
        r == literal_admitted(has_account, Price::decoded(generic_data@)),
{
    if has_account {
        return Err(ScopeError::PriceNotValid);
    }
    let decoded: Option<Price> = Price::deserialize(generic_data.as_slice());
    validate_decoded(has_account, decoded)
}

/// The constant price of entry `index` of the mapping table, dated by
/// `clock`.
pub fn get_price(oracle_mappings: &OracleMappings, index: usize, clock: &Clock) -> (r: Result<
    DatedPrice,
    ScopeError,
>)
    ensures
        r == literal_price(oracle_mappings.entries@, index as int, *clock),
{
    if index >= oracle_mappings.entries.len() {
        return Err(ScopeError::BadTokenNb);
    }
    if clock.unix_timestamp < 0 {
        return Err(ScopeError::OutOfRangeIntegralConversion);
    }
    match Price::deserialize(oracle_mappings.entries[index].generic.as_slice()) {
        Some(price) => Ok(DatedPrice::new(price, clock.slot, clock.unix_timestamp as u64)),
        None => Err(ScopeError::FixedPriceInvalid),
    }
}

} // verus!
