//! Prices: the fixed-point value, the dated record built on it, and how a
//! price is read from the bytes of a mapping entry's payload.

use vstd::prelude::*;
use vstd::slice::slice_subrange;
use anchor_lang::AnchorDeserialize;

verus! {

/// A fixed-point price: `value` times ten to the power of minus `exp`.
#[derive(Clone, Copy, PartialEq, Eq, Debug, Structural)]
pub struct Price {
    pub value: u64,
    pub exp: u64,
}

/// A price together with the moment of the observation that it rests on:
/// never the moment at which it was asked for, so that a caller can judge
/// how stale it is.
#[derive(Clone, Copy, PartialEq, Eq, Debug)]
pub struct DatedPrice {
    pub price: Price,
    pub last_updated_slot: u64,
    pub unix_timestamp: u64,
    pub generic_data: [u8; 24],
}

impl DatedPrice {
    /// `price` as observed at `slot` and `unix_timestamp`, with empty
    /// metadata.
    pub open spec fn spec_new(price: Price, slot: u64, unix_timestamp: u64) -> DatedPrice {
        DatedPrice {
            price,
            last_updated_slot: slot,
            unix_timestamp,
            generic_data: vstd::array::spec_array_fill_for_copy_type::<u8, 24>(0u8),
        }
    }

    /// `price` as observed at `slot` and `unix_timestamp`, with empty
    /// metadata.
    #[verifier::when_used_as_spec(spec_new)]
    pub fn new(price: Price, slot: u64, unix_timestamp: u64) -> (dated: DatedPrice)
        ensures
            dated == DatedPrice::spec_new(price, slot, unix_timestamp),
    {
        DatedPrice { price, last_updated_slot: slot, unix_timestamp, generic_data: [0u8; 24] }
    }
}

impl Default for Price {
    /// The zero price: value zero, exponent zero.
    fn default() -> (price: Price)
        ensures
            price == (Price { value: 0, exp: 0 }),
    {
        Price { value: 0, exp: 0 }
    }
}

impl Default for DatedPrice {
    /// The zero price at slot and time zero, with empty metadata.
    fn default() -> (dated: DatedPrice)
        ensures
            dated == DatedPrice::spec_new(Price { value: 0, exp: 0 }, 0, 0),
    {
        DatedPrice::new(Price { value: 0, exp: 0 }, 0, 0)
    }
}

/// The number that eight bytes hold, least significant byte first.
pub open spec fn le_u64(bytes: Seq<u8>) -> nat
    recommends
        bytes.len() == 8,
{
    (bytes[0] as nat) + (bytes[1] as nat) * 0x100 + (bytes[2] as nat) * 0x1_0000 + (bytes[3] as nat)
        * 0x100_0000 + (bytes[4] as nat) * 0x1_0000_0000 + (bytes[5] as nat) * 0x100_0000_0000 + (
    bytes[6] as nat) * 0x1_0000_0000_0000 + (bytes[7] as nat) * 0x100_0000_0000_0000
}

/// Eight bytes never hold more than a `u64` does.
pub proof fn lemma_le_u64_fits(bytes: Seq<u8>)
    ensures
        le_u64(bytes) <= u64::MAX,
{
}

/// The integer that borsh reads from the front of `buf`, through
/// `AnchorDeserialize::deserialize` for `u64`: the first eight bytes, least
/// significant first, or nothing where `buf` is shorter than that.
#[verifier::external_body]
fn read_u64(buf: &[u8]) -> (r: Option<u64>)
    ensures
        r == (if buf@.len() >= 8 {
            Some(le_u64(buf@.subrange(0, 8)) as u64)
        } else {
            None
        }),
{
    let mut rest: &[u8] = buf;
    u64::deserialize(&mut rest).ok()
}

impl Price {
    /// The price that `bytes` encode: the value in the first eight bytes,
    /// the exponent in the next eight, each least significant byte first.
    /// What follows the sixteenth byte is not read. Fewer than sixteen bytes
    /// encode no price.
    pub open spec fn decoded(bytes: Seq<u8>) -> Option<Price> {
        if bytes.len() >= 16 {
            Some(
                Price {
                    value: le_u64(bytes.subrange(0, 8)) as u64,
                    exp: le_u64(bytes.subrange(8, 16)) as u64,
                },
            )
        } else {
            None
        }
    }

    /// Reads a price from the front of `data`.
    pub fn deserialize(data: &[u8]) -> (price: Option<Price>)
        ensures
            price == Price::decoded(data@),
    {
        let value: u64 = match read_u64(data) {
            Some(v) => v,
            None => { return None; },
        };
        let rest = slice_subrange(data, 8, data.len());
        let exp: u64 = match read_u64(rest) {
            Some(v) => v,
            None => { return None; },
        };
        proof {
            assert(rest@.subrange(0, 8) == data@.subrange(8, 16));
            lemma_le_u64_fits(data@.subrange(0, 8));
            lemma_le_u64_fits(data@.subrange(8, 16));
        }
        Some(Price { value, exp })
    }
}

/// Sixteen bytes or more always encode a price: a payload of twenty bytes
/// cannot fail to decode.
pub proof fn lemma_payload_always_decodes(bytes: Seq<u8>)
    requires
        bytes.len() >= 16,
    ensures
        Price::decoded(bytes) is Some,
{
}

} // verus!
