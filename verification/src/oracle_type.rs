//! The closed set of price source kinds and their static metadata.

use vstd::prelude::*;
use crate::errors::ScopeError;

verus! {

/// The kind of source that resolves the price of a mapping entry.
///
/// The position of a variant is its wire value: entries are stored and
/// exchanged as that number, so variants are only ever appended, and a retired
/// kind keeps its place as a placeholder.
#[derive(Clone, Copy, PartialEq, Eq, Debug, Structural)]
pub enum OracleType {
    Pyth,
    /// Retired kind, kept so that later wire values do not move.
    DeprecatedPlaceholder1,
    SwitchboardV2,
    /// Retired kind, kept so that later wire values do not move.
    DeprecatedPlaceholder2,
    /// Lending-market collateral token.
    CToken,
    /// Stake pool token, as a stake rate in SOL. A reference only: the rate
    /// moves once per epoch, ignores fees, and unstaking is not immediate.
    SplStake,
    /// Vault share token.
    KToken,
    /// Pyth exponentially-weighted moving average.
    PythEMA,
    /// Liquid staking token, as a stake rate. A reference only, for the same
    /// reasons as `SplStake`.
    MsolStake,
    /// Number of token A for one vault share.
    KTokenToTokenA,
    /// Number of token B for one vault share.
    KTokenToTokenB,
    /// Perpetuals pool token, as the pool itself reports it. A reference only:
    /// the reported value can be stalled.
    JupiterLpFetch,
    /// Time-weighted average of another entry.
    ScopeTwap,
    /// Concentrated-liquidity pool price, A to B.
    OrcaWhirlpoolAtoB,
    /// Concentrated-liquidity pool price, B to A.
    OrcaWhirlpoolBtoA,
    /// Concentrated-liquidity pool price, A to B.
    RaydiumAmmV3AtoB,
    /// Concentrated-liquidity pool price, B to A.
    RaydiumAmmV3BtoA,
    /// Perpetuals pool token, recomputed from prices fetched with the pool.
    JupiterLpCompute,
    /// Liquidity-book pool price, A to B.
    MeteoraDlmmAtoB,
    /// Liquidity-book pool price, B to A.
    MeteoraDlmmBtoA,
    /// Perpetuals pool token, recomputed from prices already in the price store.
    JupiterLpScope,
    /// Pull-based Pyth feed.
    PythPullBased,
    /// Pull-based Pyth feed, exponentially-weighted moving average.
    PythPullBasedEMA,
    /// A constant price held in the entry's own payload.
    FixedPrice,
}

impl OracleType {
    /// The number under which this kind is stored and exchanged.
    pub open spec fn wire_value(self) -> u8 {
        match self {
            OracleType::Pyth => 0,
            OracleType::DeprecatedPlaceholder1 => 1,
            OracleType::SwitchboardV2 => 2,
            OracleType::DeprecatedPlaceholder2 => 3,
            OracleType::CToken => 4,
            OracleType::SplStake => 5,
            OracleType::KToken => 6,
            OracleType::PythEMA => 7,
            OracleType::MsolStake => 8,
            OracleType::KTokenToTokenA => 9,
            OracleType::KTokenToTokenB => 10,
            OracleType::JupiterLpFetch => 11,
            OracleType::ScopeTwap => 12,
            OracleType::OrcaWhirlpoolAtoB => 13,
            OracleType::OrcaWhirlpoolBtoA => 14,
            OracleType::RaydiumAmmV3AtoB => 15,
            OracleType::RaydiumAmmV3BtoA => 16,
            OracleType::JupiterLpCompute => 17,
            OracleType::MeteoraDlmmAtoB => 18,
            OracleType::MeteoraDlmmBtoA => 19,
            OracleType::JupiterLpScope => 20,
            OracleType::PythPullBased => 21,
            OracleType::PythPullBasedEMA => 22,
            OracleType::FixedPrice => 23,
        }
    }

    /// The kind stored under `value`, if there is one.
    pub open spec fn from_wire_value(value: u8) -> Option<OracleType> {
        match value {
            0 => Some(OracleType::Pyth),
            1 => Some(OracleType::DeprecatedPlaceholder1),
            2 => Some(OracleType::SwitchboardV2),
            3 => Some(OracleType::DeprecatedPlaceholder2),
            4 => Some(OracleType::CToken),
            5 => Some(OracleType::SplStake),
            6 => Some(OracleType::KToken),
            7 => Some(OracleType::PythEMA),
            8 => Some(OracleType::MsolStake),
            9 => Some(OracleType::KTokenToTokenA),
            10 => Some(OracleType::KTokenToTokenB),
            11 => Some(OracleType::JupiterLpFetch),
            12 => Some(OracleType::ScopeTwap),
            13 => Some(OracleType::OrcaWhirlpoolAtoB),
            14 => Some(OracleType::OrcaWhirlpoolBtoA),
            15 => Some(OracleType::RaydiumAmmV3AtoB),
            16 => Some(OracleType::RaydiumAmmV3BtoA),
            17 => Some(OracleType::JupiterLpCompute),
            18 => Some(OracleType::MeteoraDlmmAtoB),
            19 => Some(OracleType::MeteoraDlmmBtoA),
            20 => Some(OracleType::JupiterLpScope),
            21 => Some(OracleType::PythPullBased),
            22 => Some(OracleType::PythPullBasedEMA),
            23 => Some(OracleType::FixedPrice),
            _ => None,
        }
    }

    /// Whether this kind is a retired placeholder. Such a kind is never
    /// registered, priced or validated.
    pub open spec fn spec_is_deprecated(&self) -> bool {
        *self == OracleType::DeprecatedPlaceholder1 || *self == OracleType::DeprecatedPlaceholder2
    }

    /// Whether this kind is a time-weighted average.
    pub open spec fn spec_is_twap(&self) -> bool {
        *self == OracleType::ScopeTwap
    }

    /// The compute units that one refresh of a price of this kind may take.
    /// Zero stands for "none defined", which holds of the retired kinds only.
    pub open spec fn spec_update_cu_budget(&self) -> u32 {
        match *self {
            OracleType::FixedPrice => 10_000,
            OracleType::PythPullBased => 20_000,
            OracleType::PythPullBasedEMA => 20_000,
            OracleType::Pyth => 30_000,
            OracleType::SwitchboardV2 => 30_000,
            OracleType::CToken => 130_000,
            OracleType::SplStake => 20_000,
            OracleType::KToken => 120_000,
            OracleType::PythEMA => 30_000,
            OracleType::KTokenToTokenA | OracleType::KTokenToTokenB => 100_000,
            OracleType::MsolStake => 20_000,
            OracleType::JupiterLpFetch => 40_000,
            OracleType::ScopeTwap => 30_000,
            OracleType::OrcaWhirlpoolAtoB
            | OracleType::OrcaWhirlpoolBtoA
            | OracleType::RaydiumAmmV3AtoB
            | OracleType::RaydiumAmmV3BtoA => 25_000,
            OracleType::MeteoraDlmmAtoB | OracleType::MeteoraDlmmBtoA => 30_000,
            OracleType::JupiterLpCompute | OracleType::JupiterLpScope => 120_000,
            OracleType::DeprecatedPlaceholder1 | OracleType::DeprecatedPlaceholder2 => 0,
        }
    }

    /// The number under which this kind is stored and exchanged.
    pub fn to_u8(self) -> (value: u8)
        ensures
            value == self.wire_value(),
    {
        match self {
            OracleType::Pyth => 0,
            OracleType::DeprecatedPlaceholder1 => 1,
            OracleType::SwitchboardV2 => 2,
            OracleType::DeprecatedPlaceholder2 => 3,
            OracleType::CToken => 4,
            OracleType::SplStake => 5,
            OracleType::KToken => 6,
            OracleType::PythEMA => 7,
            OracleType::MsolStake => 8,
            OracleType::KTokenToTokenA => 9,
            OracleType::KTokenToTokenB => 10,
            OracleType::JupiterLpFetch => 11,
            OracleType::ScopeTwap => 12,
            OracleType::OrcaWhirlpoolAtoB => 13,
            OracleType::OrcaWhirlpoolBtoA => 14,
            OracleType::RaydiumAmmV3AtoB => 15,
            OracleType::RaydiumAmmV3BtoA => 16,
            OracleType::JupiterLpCompute => 17,
            OracleType::MeteoraDlmmAtoB => 18,
            OracleType::MeteoraDlmmBtoA => 19,
            OracleType::JupiterLpScope => 20,
            OracleType::PythPullBased => 21,
            OracleType::PythPullBasedEMA => 22,
            OracleType::FixedPrice => 23,
        }
    }

    /// The kind stored under `value`: `None` for a number that names no kind.
    pub fn from_u8(value: u8) -> (kind: Option<OracleType>)
        ensures
            kind == OracleType::from_wire_value(value),
    {
        match value {
            0 => Some(OracleType::Pyth),
            1 => Some(OracleType::DeprecatedPlaceholder1),
            2 => Some(OracleType::SwitchboardV2),
            3 => Some(OracleType::DeprecatedPlaceholder2),
            4 => Some(OracleType::CToken),
            5 => Some(OracleType::SplStake),
            6 => Some(OracleType::KToken),
            7 => Some(OracleType::PythEMA),
            8 => Some(OracleType::MsolStake),
            9 => Some(OracleType::KTokenToTokenA),
            10 => Some(OracleType::KTokenToTokenB),
            11 => Some(OracleType::JupiterLpFetch),
            12 => Some(OracleType::ScopeTwap),
            13 => Some(OracleType::OrcaWhirlpoolAtoB),
            14 => Some(OracleType::OrcaWhirlpoolBtoA),
            15 => Some(OracleType::RaydiumAmmV3AtoB),
            16 => Some(OracleType::RaydiumAmmV3BtoA),
            17 => Some(OracleType::JupiterLpCompute),
            18 => Some(OracleType::MeteoraDlmmAtoB),
            19 => Some(OracleType::MeteoraDlmmBtoA),
            20 => Some(OracleType::JupiterLpScope),
            21 => Some(OracleType::PythPullBased),
            22 => Some(OracleType::PythPullBasedEMA),
            23 => Some(OracleType::FixedPrice),
            _ => None,
        }
    }

    /// Whether this kind is a retired placeholder.
    #[verifier::when_used_as_spec(spec_is_deprecated)]
    pub fn is_deprecated(&self) -> (r: bool)
        ensures
            r == self.spec_is_deprecated(),
    {
        matches!(self, OracleType::DeprecatedPlaceholder1 | OracleType::DeprecatedPlaceholder2)
    }

    /// Whether this kind is a time-weighted average: true of `ScopeTwap` and
    /// of no other kind.
    #[verifier::when_used_as_spec(spec_is_twap)]
    pub fn is_twap(&self) -> (r: bool)
        ensures
            r == self.spec_is_twap(),
            r <==> *self == OracleType::ScopeTwap,
    {
        matches!(self, OracleType::ScopeTwap)
    }

    /// The compute units that one refresh of a price of this kind may take. A
    /// caller adds these up over a batch and keeps the sum under its ceiling.
    ///
    /// A retired kind has no budget: it must not be asked for one.
    #[verifier::when_used_as_spec(spec_update_cu_budget)]
    pub fn get_update_cu_budget(&self) -> (budget: u32)
        requires
            !self.is_deprecated(),
        ensures
            budget == self.spec_update_cu_budget(),
            budget > 0,
    {
        match self {
            OracleType::FixedPrice => 10_000,
            OracleType::PythPullBased => 20_000,
            OracleType::PythPullBasedEMA => 20_000,
            OracleType::Pyth => 30_000,
            OracleType::SwitchboardV2 => 30_000,
            OracleType::CToken => 130_000,
            OracleType::SplStake => 20_000,
            OracleType::KToken => 120_000,
            OracleType::PythEMA => 30_000,
            OracleType::KTokenToTokenA | OracleType::KTokenToTokenB => 100_000,
            OracleType::MsolStake => 20_000,
            OracleType::JupiterLpFetch => 40_000,
            OracleType::ScopeTwap => 30_000,
            OracleType::OrcaWhirlpoolAtoB
            | OracleType::OrcaWhirlpoolBtoA
            | OracleType::RaydiumAmmV3AtoB
            | OracleType::RaydiumAmmV3BtoA => 25_000,
            OracleType::MeteoraDlmmAtoB | OracleType::MeteoraDlmmBtoA => 30_000,
            OracleType::JupiterLpCompute | OracleType::JupiterLpScope => 120_000,
            OracleType::DeprecatedPlaceholder1 | OracleType::DeprecatedPlaceholder2 => unreached(),
        }
    }
}

impl From<OracleType> for u8 {
    /// The number under which `kind` is stored and exchanged.
    fn from(kind: OracleType) -> (value: u8) {
        kind.to_u8()
    }
}

impl vstd::std_specs::convert::FromSpecImpl<OracleType> for u8 {
    open spec fn obeys_from_spec() -> bool {
        true
    }

    open spec fn from_spec(kind: OracleType) -> u8 {
        kind.wire_value()
    }
}

impl TryFrom<u8> for OracleType {
    type Error = ScopeError;

    /// The kind stored under `value`, or `BadTokenType` for a number that
    /// names no kind.
    fn try_from(value: u8) -> (kind: Result<OracleType, ScopeError>) {
        match OracleType::from_u8(value) {
            Some(kind) => Ok(kind),
            None => Err(ScopeError::BadTokenType),
        }
    }
}

impl vstd::std_specs::convert::TryFromSpecImpl<u8> for OracleType {
    open spec fn obeys_try_from_spec() -> bool {
        true
    }

    open spec fn try_from_spec(value: u8) -> Result<OracleType, ScopeError> {
        match OracleType::from_wire_value(value) {
            Some(kind) => Ok(kind),
            None => Err(ScopeError::BadTokenType),
        }
    }
}

/// Every kind but the retired ones has a budget, and it is positive; the
/// retired ones have none.
pub proof fn lemma_budget_positive_iff_live(kind: OracleType)
    ensures
        kind.spec_update_cu_budget() > 0 <==> !kind.spec_is_deprecated(),
{
}

/// Storing a kind and reading it back gives the same kind, and the numbers
/// in use are exactly 0 to 23.
pub proof fn lemma_wire_value_round_trip(kind: OracleType, value: u8)
    ensures
        OracleType::from_wire_value(kind.wire_value()) == Some(kind),
        OracleType::from_wire_value(value) is Some <==> value <= 23,
        OracleType::from_wire_value(value) matches Some(k) ==> k.wire_value() == value,
{
}

/// Exactly one kind is a time-weighted average.
pub proof fn lemma_single_twap_kind(a: OracleType, b: OracleType)
    ensures
        OracleType::ScopeTwap.spec_is_twap(),
        a.spec_is_twap() && b.spec_is_twap() ==> a == b,
{
}

} // verus!
