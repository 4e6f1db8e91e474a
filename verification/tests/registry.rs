use scope_oracles::errors::ScopeError;
use scope_oracles::oracle_type::OracleType;
use scope_oracles::routes::{AccountCheck, Admission, Feed, Route};

const ALL: [OracleType; 24] = [
    OracleType::Pyth,
    OracleType::DeprecatedPlaceholder1,
    OracleType::SwitchboardV2,
    OracleType::DeprecatedPlaceholder2,
    OracleType::CToken,
    OracleType::SplStake,
    OracleType::KToken,
    OracleType::PythEMA,
    OracleType::MsolStake,
    OracleType::KTokenToTokenA,
    OracleType::KTokenToTokenB,
    OracleType::JupiterLpFetch,
    OracleType::ScopeTwap,
    OracleType::OrcaWhirlpoolAtoB,
    OracleType::OrcaWhirlpoolBtoA,
    OracleType::RaydiumAmmV3AtoB,
    OracleType::RaydiumAmmV3BtoA,
    OracleType::JupiterLpCompute,
    OracleType::MeteoraDlmmAtoB,
    OracleType::MeteoraDlmmBtoA,
    OracleType::JupiterLpScope,
    OracleType::PythPullBased,
    OracleType::PythPullBasedEMA,
    OracleType::FixedPrice,
];

#[test]
fn wire_values_are_the_positions_zero_to_twenty_three() {
    for (position, kind) in ALL.iter().enumerate() {
        assert_eq!(kind.to_u8() as usize, position);
        assert_eq!(OracleType::from_u8(position as u8), Some(*kind));
    }
}

#[test]
fn wire_values_of_named_kinds_never_move() {
    assert_eq!(OracleType::Pyth.to_u8(), 0);
    assert_eq!(OracleType::DeprecatedPlaceholder1.to_u8(), 1);
    assert_eq!(OracleType::SwitchboardV2.to_u8(), 2);
    assert_eq!(OracleType::DeprecatedPlaceholder2.to_u8(), 3);
    assert_eq!(OracleType::ScopeTwap.to_u8(), 12);
    assert_eq!(OracleType::JupiterLpScope.to_u8(), 20);
    assert_eq!(OracleType::FixedPrice.to_u8(), 23);
}

#[test]
fn numbers_past_the_last_kind_name_no_kind() {
    assert_eq!(OracleType::from_u8(24), None);
    assert_eq!(OracleType::from_u8(100), None);
    assert_eq!(OracleType::from_u8(255), None);
}

#[test]
fn only_the_two_placeholders_are_deprecated() {
    for kind in ALL.iter() {
        let expected = matches!(
            kind,
            OracleType::DeprecatedPlaceholder1 | OracleType::DeprecatedPlaceholder2
        );
        assert_eq!(kind.is_deprecated(), expected);
    }
}

#[test]
fn exactly_one_kind_is_a_twap() {
    let mut count = 0;
    for kind in ALL.iter() {
        if kind.is_twap() {
            count += 1;
            assert_eq!(*kind, OracleType::ScopeTwap);
        }
    }
    assert_eq!(count, 1);
    assert!(!OracleType::DeprecatedPlaceholder1.is_twap());
    assert!(!OracleType::FixedPrice.is_twap());
}

#[test]
fn every_live_kind_has_its_budget() {
    assert_eq!(OracleType::FixedPrice.get_update_cu_budget(), 10_000);
    assert_eq!(OracleType::PythPullBased.get_update_cu_budget(), 20_000);
    assert_eq!(OracleType::PythPullBasedEMA.get_update_cu_budget(), 20_000);
    assert_eq!(OracleType::Pyth.get_update_cu_budget(), 30_000);
    assert_eq!(OracleType::SwitchboardV2.get_update_cu_budget(), 30_000);
    assert_eq!(OracleType::CToken.get_update_cu_budget(), 130_000);
    assert_eq!(OracleType::SplStake.get_update_cu_budget(), 20_000);
    assert_eq!(OracleType::KToken.get_update_cu_budget(), 120_000);
    assert_eq!(OracleType::PythEMA.get_update_cu_budget(), 30_000);
    assert_eq!(OracleType::KTokenToTokenA.get_update_cu_budget(), 100_000);
    assert_eq!(OracleType::KTokenToTokenB.get_update_cu_budget(), 100_000);
    assert_eq!(OracleType::MsolStake.get_update_cu_budget(), 20_000);
    assert_eq!(OracleType::JupiterLpFetch.get_update_cu_budget(), 40_000);
    assert_eq!(OracleType::ScopeTwap.get_update_cu_budget(), 30_000);
    assert_eq!(OracleType::OrcaWhirlpoolAtoB.get_update_cu_budget(), 25_000);
    assert_eq!(OracleType::OrcaWhirlpoolBtoA.get_update_cu_budget(), 25_000);
    assert_eq!(OracleType::RaydiumAmmV3AtoB.get_update_cu_budget(), 25_000);
    assert_eq!(OracleType::RaydiumAmmV3BtoA.get_update_cu_budget(), 25_000);
    assert_eq!(OracleType::MeteoraDlmmAtoB.get_update_cu_budget(), 30_000);
    assert_eq!(OracleType::MeteoraDlmmBtoA.get_update_cu_budget(), 30_000);
    assert_eq!(OracleType::JupiterLpCompute.get_update_cu_budget(), 120_000);
    assert_eq!(OracleType::JupiterLpScope.get_update_cu_budget(), 120_000);
}

#[test]
fn budgets_of_live_kinds_are_positive_and_add_up() {
    let mut total: u64 = 0;
    for kind in ALL.iter() {
        if !kind.is_deprecated() {
            let budget = kind.get_update_cu_budget();
            assert!(budget > 0);
            total += budget as u64;
        }
    }
    assert_eq!(total, 1_100_000);
}

#[test]
fn direction_kinds_share_a_feed_and_differ_in_direction() {
    assert_eq!(
        OracleType::OrcaWhirlpoolAtoB.price_route(),
        Route::Feed(Feed::OrcaWhirlpool { a_to_b: true })
    );
    assert_eq!(
        OracleType::OrcaWhirlpoolBtoA.price_route(),
        Route::Feed(Feed::OrcaWhirlpool { a_to_b: false })
    );
    assert_eq!(
        OracleType::RaydiumAmmV3AtoB.price_route(),
        Route::Feed(Feed::RaydiumAmmV3 { a_to_b: true })
    );
    assert_eq!(
        OracleType::MeteoraDlmmBtoA.price_route(),
        Route::Feed(Feed::MeteoraDlmm { a_to_b: false })
    );
    assert_eq!(
        OracleType::KTokenToTokenA.price_route(),
        Route::Feed(Feed::KTokenShare { token_a: true })
    );
    assert_eq!(
        OracleType::KTokenToTokenB.price_route(),
        Route::Feed(Feed::KTokenShare { token_a: false })
    );
}

#[test]
fn derived_kinds_are_served_inside() {
    assert_eq!(OracleType::ScopeTwap.price_route(), Route::Twap);
    assert_eq!(OracleType::JupiterLpScope.price_route(), Route::PoolFromStore);
    assert_eq!(OracleType::FixedPrice.price_route(), Route::Literal);
    assert_eq!(OracleType::JupiterLpFetch.price_route(), Route::Feed(Feed::JupiterLpFetch));
    assert_eq!(OracleType::JupiterLpCompute.price_route(), Route::Feed(Feed::JupiterLpCompute));
}

#[test]
fn feeds_that_draw_accounts() {
    assert!(Feed::KToken.draws_extra_accounts());
    assert!(Feed::KTokenShare { token_a: true }.draws_extra_accounts());
    assert!(Feed::JupiterLpFetch.draws_extra_accounts());
    assert!(Feed::JupiterLpCompute.draws_extra_accounts());
    assert!(Feed::OrcaWhirlpool { a_to_b: false }.draws_extra_accounts());
    assert!(Feed::MeteoraDlmm { a_to_b: true }.draws_extra_accounts());
    assert!(!Feed::Pyth.draws_extra_accounts());
    assert!(!Feed::PythEma.draws_extra_accounts());
    assert!(!Feed::PythPullBased.draws_extra_accounts());
    assert!(!Feed::PythPullBasedEma.draws_extra_accounts());
    assert!(!Feed::SwitchboardV2.draws_extra_accounts());
    assert!(!Feed::CToken.draws_extra_accounts());
    assert!(!Feed::SplStake.draws_extra_accounts());
    assert!(!Feed::MsolStake.draws_extra_accounts());
    assert!(!Feed::RaydiumAmmV3 { a_to_b: true }.draws_extra_accounts());
}

#[test]
fn admission_rules_by_kind() {
    assert_eq!(OracleType::Pyth.admission(), Admission::Check(AccountCheck::PythPriceInfo));
    assert_eq!(OracleType::PythEMA.admission(), Admission::Check(AccountCheck::PythPriceInfo));
    assert_eq!(
        OracleType::PythPullBased.admission(),
        Admission::Check(AccountCheck::PriceUpdateV2)
    );
    assert_eq!(
        OracleType::PythPullBasedEMA.admission(),
        Admission::Check(AccountCheck::PriceUpdateV2)
    );
    assert_eq!(OracleType::JupiterLpFetch.admission(), Admission::Check(AccountCheck::JlpPool));
    assert_eq!(OracleType::JupiterLpCompute.admission(), Admission::Check(AccountCheck::JlpPool));
    assert_eq!(OracleType::JupiterLpScope.admission(), Admission::Check(AccountCheck::JlpPool));
    assert_eq!(
        OracleType::OrcaWhirlpoolBtoA.admission(),
        Admission::Check(AccountCheck::WhirlpoolPool)
    );
    assert_eq!(
        OracleType::RaydiumAmmV3AtoB.admission(),
        Admission::Check(AccountCheck::RaydiumPool)
    );
    assert_eq!(
        OracleType::MeteoraDlmmAtoB.admission(),
        Admission::Check(AccountCheck::MeteoraPool)
    );
    assert_eq!(OracleType::SwitchboardV2.admission(), Admission::Unconditional);
    assert_eq!(OracleType::CToken.admission(), Admission::Unconditional);
    assert_eq!(OracleType::SplStake.admission(), Admission::Unconditional);
    assert_eq!(OracleType::MsolStake.admission(), Admission::Unconditional);
    assert_eq!(OracleType::KToken.admission(), Admission::Unconditional);
    assert_eq!(OracleType::KTokenToTokenA.admission(), Admission::Unconditional);
    assert_eq!(OracleType::KTokenToTokenB.admission(), Admission::Unconditional);
    assert_eq!(OracleType::ScopeTwap.admission(), Admission::TwapSource);
    assert_eq!(OracleType::FixedPrice.admission(), Admission::Literal);
}

#[test]
fn kinds_convert_to_and_from_bytes() {
    for (position, kind) in ALL.iter().enumerate() {
        assert_eq!(u8::from(*kind) as usize, position);
        assert_eq!(OracleType::try_from(position as u8), Ok(*kind));
    }
    let number: u8 = OracleType::JupiterLpScope.into();
    assert_eq!(number, 20);
    assert_eq!(OracleType::try_from(24u8), Err(ScopeError::BadTokenType));
    assert_eq!(OracleType::try_from(255u8), Err(ScopeError::BadTokenType));
}
