//! Which routine serves each kind: for a price, and for the admission of a
//! configuration. The routines that read a feed's account live outside the
//! library; they are named here, and the library says which one a kind
//! goes to and with which direction.

use vstd::prelude::*;
use crate::oracle_type::OracleType;

verus! {

/// A routine outside the library that resolves a price from an account.
#[derive(Clone, Copy, PartialEq, Eq, Debug, Structural)]
pub enum Feed {
    Pyth,
    PythPullBased,
    PythPullBasedEma,
    SwitchboardV2,
    CToken,
    SplStake,
    KToken,
    PythEma,
    /// The amount of one token of the pair per vault share: of token A
    /// where `token_a` holds, else of token B.
    KTokenShare { token_a: bool },
    MsolStake,
    /// The pool token's price as the pool reports it.
    JupiterLpFetch,
    OrcaWhirlpool { a_to_b: bool },
    RaydiumAmmV3 { a_to_b: bool },
    MeteoraDlmm { a_to_b: bool },
    /// The pool token's price recomputed from prices fetched with the pool.
    JupiterLpCompute,
}

/// How the price of a kind is obtained.
#[derive(Clone, Copy, PartialEq, Eq, Debug, Structural)]
pub enum Route {
    /// From the named routine outside the library.
    Feed(Feed),
    /// From the pool's holdings and the price store.
    PoolFromStore,
    /// From the history of another entry.
    Twap,
    /// From the entry's own payload.
    Literal,
}

/// A routine outside the library that tells whether an account has the
/// shape that a feed reads.
#[derive(Clone, Copy, PartialEq, Eq, Debug, Structural)]
pub enum AccountCheck {
    PythPriceInfo,
    PriceUpdateV2,
    JlpPool,
    WhirlpoolPool,
    RaydiumPool,
    MeteoraPool,
}

/// How a configuration of a kind is admitted.
#[derive(Clone, Copy, PartialEq, Eq, Debug, Structural)]
pub enum Admission {
    /// By the named check of the account, outside the library.
    Check(AccountCheck),
    /// Without any check. A known gap, kept as it is: these kinds have no
    /// check yet, and to add one would change what is admitted.
    Unconditional,
    /// By the range of the source of the average.
    TwapSource,
    /// By the absence of an account and the decoding of the payload.
    Literal,
}

impl Feed {
    /// Whether the routine draws accounts beside the one it reads.
    pub open spec fn spec_draws_extra_accounts(&self) -> bool {
        match *self {
            Feed::KToken
            | Feed::KTokenShare { .. }
            | Feed::JupiterLpFetch
            | Feed::OrcaWhirlpool { .. }
            | Feed::MeteoraDlmm { .. }
            | Feed::JupiterLpCompute => true,
            _ => false,
        }
    }

    /// Whether the routine draws accounts beside the one it reads.
    #[verifier::when_used_as_spec(spec_draws_extra_accounts)]
    pub fn draws_extra_accounts(&self) -> (draws: bool)
        ensures
            draws == self.spec_draws_extra_accounts(),
    {
        match self {
            Feed::KToken
            | Feed::KTokenShare { .. }
            | Feed::JupiterLpFetch
            | Feed::OrcaWhirlpool { .. }
            | Feed::MeteoraDlmm { .. }
            | Feed::JupiterLpCompute => true,
            _ => false,
        }
    }
}

impl OracleType {
    /// How the price of this kind is obtained. A retired kind has no route.
    pub open spec fn spec_price_route(&self) -> Option<Route> {
        match *self {
            OracleType::Pyth => Some(Route::Feed(Feed::Pyth)),
            OracleType::PythPullBased => Some(Route::Feed(Feed::PythPullBased)),
            OracleType::PythPullBasedEMA => Some(Route::Feed(Feed::PythPullBasedEma)),
            OracleType::SwitchboardV2 => Some(Route::Feed(Feed::SwitchboardV2)),
            OracleType::CToken => Some(Route::Feed(Feed::CToken)),
            OracleType::SplStake => Some(Route::Feed(Feed::SplStake)),
            OracleType::KToken => Some(Route::Feed(Feed::KToken)),
            OracleType::PythEMA => Some(Route::Feed(Feed::PythEma)),
            OracleType::KTokenToTokenA => Some(Route::Feed(Feed::KTokenShare { token_a: true })),
            OracleType::KTokenToTokenB => Some(Route::Feed(Feed::KTokenShare { token_a: false })),
            OracleType::MsolStake => Some(Route::Feed(Feed::MsolStake)),
            OracleType::JupiterLpFetch => Some(Route::Feed(Feed::JupiterLpFetch)),
            OracleType::ScopeTwap => Some(Route::Twap),
            OracleType::OrcaWhirlpoolAtoB => Some(Route::Feed(Feed::OrcaWhirlpool { a_to_b: true })),
            OracleType::OrcaWhirlpoolBtoA => Some(
                Route::Feed(Feed::OrcaWhirlpool { a_to_b: false }),
            ),
            OracleType::RaydiumAmmV3AtoB => Some(Route::Feed(Feed::RaydiumAmmV3 { a_to_b: true })),
            OracleType::RaydiumAmmV3BtoA => Some(Route::Feed(Feed::RaydiumAmmV3 { a_to_b: false })),
            OracleType::MeteoraDlmmAtoB => Some(Route::Feed(Feed::MeteoraDlmm { a_to_b: true })),
            OracleType::MeteoraDlmmBtoA => Some(Route::Feed(Feed::MeteoraDlmm { a_to_b: false })),
            OracleType::JupiterLpCompute => Some(Route::Feed(Feed::JupiterLpCompute)),
            OracleType::JupiterLpScope => Some(Route::PoolFromStore),
            OracleType::FixedPrice => Some(Route::Literal),
            OracleType::DeprecatedPlaceholder1 | OracleType::DeprecatedPlaceholder2 => None,
        }
    }

    /// How a configuration of this kind is admitted. A retired kind is
    /// never admitted and has no rule.
    pub open spec fn spec_admission(&self) -> Option<Admission> {
        match *self {
            OracleType::Pyth | OracleType::PythEMA => Some(
                Admission::Check(AccountCheck::PythPriceInfo),
            ),
            OracleType::PythPullBased | OracleType::PythPullBasedEMA => Some(
                Admission::Check(AccountCheck::PriceUpdateV2),
            ),
            OracleType::SwitchboardV2
            | OracleType::CToken
            | OracleType::SplStake
            | OracleType::KToken
            | OracleType::KTokenToTokenA
            | OracleType::KTokenToTokenB
            | OracleType::MsolStake => Some(Admission::Unconditional),
            OracleType::JupiterLpFetch
            | OracleType::JupiterLpCompute
            | OracleType::JupiterLpScope => Some(Admission::Check(AccountCheck::JlpPool)),
            OracleType::ScopeTwap => Some(Admission::TwapSource),
            OracleType::OrcaWhirlpoolAtoB | OracleType::OrcaWhirlpoolBtoA => Some(
                Admission::Check(AccountCheck::WhirlpoolPool),
            ),
            OracleType::RaydiumAmmV3AtoB | OracleType::RaydiumAmmV3BtoA => Some(
                Admission::Check(AccountCheck::RaydiumPool),
            ),
            OracleType::MeteoraDlmmAtoB | OracleType::MeteoraDlmmBtoA => Some(
                Admission::Check(AccountCheck::MeteoraPool),
            ),
            OracleType::FixedPrice => Some(Admission::Literal),
            OracleType::DeprecatedPlaceholder1 | OracleType::DeprecatedPlaceholder2 => None,
        }
    }

    /// How the price of this kind is obtained.
    pub fn price_route(&self) -> (route: Route)
        requires
            !self.is_deprecated(),
        ensures
            self.spec_price_route() == Some(route),
    {
        match self {
            OracleType::Pyth => Route::Feed(Feed::Pyth),
            OracleType::PythPullBased => Route::Feed(Feed::PythPullBased),
            OracleType::PythPullBasedEMA => Route::Feed(Feed::PythPullBasedEma),
            OracleType::SwitchboardV2 => Route::Feed(Feed::SwitchboardV2),
            OracleType::CToken => Route::Feed(Feed::CToken),
            OracleType::SplStake => Route::Feed(Feed::SplStake),
            OracleType::KToken => Route::Feed(Feed::KToken),
            OracleType::PythEMA => Route::Feed(Feed::PythEma),
            OracleType::KTokenToTokenA => Route::Feed(Feed::KTokenShare { token_a: true }),
            OracleType::KTokenToTokenB => Route::Feed(Feed::KTokenShare { token_a: false }),
            OracleType::MsolStake => Route::Feed(Feed::MsolStake),
            OracleType::JupiterLpFetch => Route::Feed(Feed::JupiterLpFetch),
            OracleType::ScopeTwap => Route::Twap,
            OracleType::OrcaWhirlpoolAtoB => Route::Feed(Feed::OrcaWhirlpool { a_to_b: true }),
            OracleType::OrcaWhirlpoolBtoA => Route::Feed(Feed::OrcaWhirlpool { a_to_b: false }),
            OracleType::RaydiumAmmV3AtoB => Route::Feed(Feed::RaydiumAmmV3 { a_to_b: true }),
            OracleType::RaydiumAmmV3BtoA => Route::Feed(Feed::RaydiumAmmV3 { a_to_b: false }),
            OracleType::MeteoraDlmmAtoB => Route::Feed(Feed::MeteoraDlmm { a_to_b: true }),
            OracleType::MeteoraDlmmBtoA => Route::Feed(Feed::MeteoraDlmm { a_to_b: false }),
            OracleType::JupiterLpCompute => Route::Feed(Feed::JupiterLpCompute),
            OracleType::JupiterLpScope => Route::PoolFromStore,
            OracleType::FixedPrice => Route::Literal,
            OracleType::DeprecatedPlaceholder1 | OracleType::DeprecatedPlaceholder2 => unreached(),
        }
    }

    /// How a configuration of this kind is admitted.
    pub fn admission(&self) -> (rule: Admission)
        requires
            !self.is_deprecated(),
        ensures
            self.spec_admission() == Some(rule),
    {
        match self {
            OracleType::Pyth | OracleType::PythEMA => Admission::Check(AccountCheck::PythPriceInfo),
            OracleType::PythPullBased | OracleType::PythPullBasedEMA => Admission::Check(
                AccountCheck::PriceUpdateV2,
            ),
            OracleType::SwitchboardV2
            | OracleType::CToken
            | OracleType::SplStake
            | OracleType::KToken
            | OracleType::KTokenToTokenA
            | OracleType::KTokenToTokenB
            | OracleType::MsolStake => Admission::Unconditional,
            OracleType::JupiterLpFetch
            | OracleType::JupiterLpCompute
            | OracleType::JupiterLpScope => Admission::Check(AccountCheck::JlpPool),
            OracleType::ScopeTwap => Admission::TwapSource,
            OracleType::OrcaWhirlpoolAtoB | OracleType::OrcaWhirlpoolBtoA => Admission::Check(
                AccountCheck::WhirlpoolPool,
            ),
            OracleType::RaydiumAmmV3AtoB | OracleType::RaydiumAmmV3BtoA => Admission::Check(
                AccountCheck::RaydiumPool,
            ),
            OracleType::MeteoraDlmmAtoB | OracleType::MeteoraDlmmBtoA => Admission::Check(
                AccountCheck::MeteoraPool,
            ),
            OracleType::FixedPrice => Admission::Literal,
            OracleType::DeprecatedPlaceholder1 | OracleType::DeprecatedPlaceholder2 => unreached(),
        }
    }
}

/// Every kind in use has a route and a rule of admission; a retired kind
/// has neither.
pub proof fn lemma_routed_iff_live(kind: OracleType)
    ensures
        kind.spec_price_route() is Some <==> !kind.spec_is_deprecated(),
        kind.spec_admission() is Some <==> !kind.spec_is_deprecated(),
{
}

} // verus!
