//! The failures that the library reports.

use vstd::prelude::*;
use crate::oracle_type::OracleType;

verus! {

/// Why a price could not be produced, or a configuration not admitted.
#[derive(Clone, Copy, PartialEq, Eq, Debug, Structural)]
pub enum ScopeError {
    /// An entry index beyond the mapping table or the price store.
    BadTokenNb,
    /// A stored kind number that names no kind, or names a retired one.
    BadTokenType,
    /// Accounts were left over after the request had taken all it uses.
    UnexpectedAccount,
    /// The configuration is not admissible for its kind.
    PriceNotValid,
    /// Fewer accounts were supplied than the source draws.
    AccountsAndTokenMismatch,
    /// A quantity does not fit the integer that has to hold it.
    IntegerOverflow,
    /// The clock reads a time before the epoch.
    OutOfRangeIntegralConversion,
    /// A time-weighted average refers to an entry beyond the tables.
    TwapSourceIndexOutOfRange,
    /// A time-weighted average refers to an entry whose kind cannot be averaged.
    TwapSourceNotEligible,
    /// A time-weighted average was asked of an empty history.
    TwapNotEnoughSamples,
    /// The history of observations is not in time order up to the clock.
    TwapSamplesOutOfOrder,
    /// The payload of a constant price does not decode to a price.
    FixedPriceInvalid,
    /// A pool without holdings or without supply has no price.
    PoolEmpty,
    /// A pool holds a token that no mapping entry prices.
    PoolTokenNotMapped,
    /// A pool holds a token that the pool's own entry prices.
    PoolReferencesItself,
    /// A source outside the library failed. `code` is the failure as the
    /// source reported it, `kind` the kind that was being served.
    SourceFailed { kind: OracleType, code: u32 },
}

} // verus!
