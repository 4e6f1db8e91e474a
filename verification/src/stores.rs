//! The shared stores that a price request reads, and the clock it is given.
//! The library reads them and never writes them.

use vstd::prelude::*;
use crate::price::DatedPrice;

verus! {

/// The number of entries of a full mapping table, and of the stores that
/// run beside it.
pub const MAX_ENTRIES: usize = 512;

/// The address of an account.
#[derive(Clone, Copy, PartialEq, Eq, Debug)]
pub struct Pubkey(pub [u8; 32]);

impl Pubkey {
    /// Whether two addresses are the same, byte for byte.
    pub fn equals(&self, other: &Pubkey) -> (same: bool)
        ensures
            same == (self.0@ == other.0@),
    {
        let mut i: usize = 0;
        while i < 32
            invariant
                i <= 32,
                forall|k: int| 0 <= k < i ==> self.0@[k] == other.0@[k],
            decreases 32 - i,
        {
            if self.0[i] != other.0[i] {
                return false;
            }
            i = i + 1;
        }
        assert(self.0@ =~= other.0@);
        true
    }
}

/// The time of a request: one reading for all that the request does.
#[derive(Clone, Copy, PartialEq, Eq, Debug)]
pub struct Clock {
    pub slot: u64,
    pub unix_timestamp: i64,
}

/// One entry of the mapping table: how the price of one token is obtained.
#[derive(Clone, Copy, PartialEq, Eq, Debug)]
pub struct MappingEntry {
    /// The account that the source reads, for the kinds that read one.
    pub price_account: Option<Pubkey>,
    /// The kind of the source, as its wire value.
    pub price_type: u8,
    /// For a time-weighted average, the entry whose price is averaged.
    pub twap_source: u16,
    /// Twenty bytes of configuration, or of literal data, as the kind reads
    /// them.
    pub generic: [u8; 20],
}

/// The mapping table: entry `i` configures the price of token `i`.
#[derive(Clone, PartialEq, Eq, Debug)]
pub struct OracleMappings {
    pub entries: Vec<MappingEntry>,
}

/// One observation of a price.
#[derive(Clone, Copy, PartialEq, Eq, Debug)]
pub struct TwapSample {
    pub price: crate::price::Price,
    pub slot: u64,
    pub unix_timestamp: u64,
}

/// The recent observations of one entry's price, oldest first.
#[derive(Clone, PartialEq, Eq, Debug)]
pub struct TwapHistory {
    pub samples: Vec<TwapSample>,
}

/// The histories from which averages are taken: history `i` belongs to
/// entry `i` of the mapping table.
#[derive(Clone, PartialEq, Eq, Debug)]
pub struct OracleTwaps {
    pub twaps: Vec<TwapHistory>,
}

/// The prices most recently resolved: price `i` belongs to entry `i` of the
/// mapping table.
#[derive(Clone, PartialEq, Eq, Debug)]
pub struct OraclePrices {
    pub prices: Vec<DatedPrice>,
}

} // verus!
