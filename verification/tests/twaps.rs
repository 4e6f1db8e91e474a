use scope_oracles::errors::ScopeError;
use scope_oracles::oracle_type::OracleType;
use scope_oracles::price::{DatedPrice, Price};
use scope_oracles::stores::{
    Clock, MappingEntry, OracleMappings, OracleTwaps, TwapHistory, TwapSample, MAX_ENTRIES,
};
use scope_oracles::twap;

fn sample(value: u64, exp: u64, slot: u64, unix_timestamp: u64) -> TwapSample {
    TwapSample { price: Price { value, exp }, slot, unix_timestamp }
}

fn entry(kind: OracleType, twap_source: u16) -> MappingEntry {
    MappingEntry { price_account: None, price_type: kind.to_u8(), twap_source, generic: [0; 20] }
}

fn stores(samples: Vec<TwapSample>) -> (OracleMappings, OracleTwaps) {
    let mappings = OracleMappings {
        entries: vec![entry(OracleType::Pyth, 0), entry(OracleType::ScopeTwap, 0)],
    };
    let twaps = OracleTwaps {
        twaps: vec![TwapHistory { samples }, TwapHistory { samples: vec![] }],
    };
    (mappings, twaps)
}

#[test]
fn average_weighs_each_price_by_the_time_it_held() {
    // 100 held for 10 s, 200 for 30 s, 410 for 20 s: 15200 / 60 = 253 (rounded down).
    let samples = vec![sample(100, 2, 1, 1000), sample(200, 2, 2, 1010), sample(410, 2, 3, 1040)];
    assert_eq!(twap::average_price(&samples, 1060), Ok(Price { value: 253, exp: 2 }));
}

#[test]
fn average_of_one_observation_is_that_observation() {
    let samples = vec![sample(777, 3, 1, 1000)];
    assert_eq!(twap::average_price(&samples, 1500), Ok(Price { value: 777, exp: 3 }));
    assert_eq!(twap::average_price(&samples, 1000), Ok(Price { value: 777, exp: 3 }));
}

#[test]
fn average_with_no_time_passed_is_the_latest_value() {
    let samples = vec![sample(10, 0, 1, 50), sample(30, 0, 2, 50)];
    assert_eq!(twap::average_price(&samples, 50), Ok(Price { value: 30, exp: 0 }));
}

#[test]
fn average_is_in_the_exponent_of_the_latest_observation() {
    // 1.5 (15e-1) for 10 s, then 2.50 (250e-2) for 10 s: (150 * 10 + 250 * 10) / 20 = 200e-2.
    let samples = vec![sample(15, 1, 1, 0), sample(250, 2, 2, 10)];
    assert_eq!(twap::average_price(&samples, 20), Ok(Price { value: 200, exp: 2 }));
    // 2.50 first, then 1.5: (25 * 10 + 15 * 10) / 20 = 20e-1 (250e-2 rounds down to 25e-1).
    let samples = vec![sample(250, 2, 1, 0), sample(15, 1, 2, 10)];
    assert_eq!(twap::average_price(&samples, 20), Ok(Price { value: 20, exp: 1 }));
}

#[test]
fn average_of_nothing_fails() {
    assert_eq!(twap::average_price(&vec![], 10), Err(ScopeError::TwapNotEnoughSamples));
}

#[test]
fn average_of_observations_out_of_order_fails() {
    let samples = vec![sample(1, 0, 1, 20), sample(2, 0, 2, 10)];
    assert_eq!(twap::average_price(&samples, 30), Err(ScopeError::TwapSamplesOutOfOrder));
}

#[test]
fn average_of_observations_after_the_clock_fails() {
    let samples = vec![sample(1, 0, 1, 20), sample(2, 0, 2, 40)];
    assert_eq!(twap::average_price(&samples, 39), Err(ScopeError::TwapSamplesOutOfOrder));
    assert_eq!(twap::average_price(&samples, 40), Ok(Price { value: 1, exp: 0 }));
}

#[test]
fn average_beyond_the_integers_fails() {
    // The older value has to be multiplied by 10^30 to reach the latest exponent.
    let samples = vec![sample(u64::MAX, 0, 1, 0), sample(1, 30, 2, 10)];
    assert_eq!(twap::average_price(&samples, 20), Err(ScopeError::IntegerOverflow));
    // The weighted sum fits, the average does not fit a u64.
    let samples = vec![sample(u64::MAX, 0, 1, 0), sample(1, 1, 2, 10)];
    assert_eq!(twap::average_price(&samples, 20), Err(ScopeError::IntegerOverflow));
}

#[test]
fn twap_price_is_dated_by_the_latest_observation() {
    let (mappings, twaps) =
        stores(vec![sample(100, 2, 7, 1000), sample(200, 2, 8, 1010), sample(410, 2, 9, 1040)]);
    let clock = Clock { slot: 99, unix_timestamp: 1060 };
    assert_eq!(
        twap::get_price(&mappings, &twaps, 1, &clock),
        Ok(DatedPrice {
            price: Price { value: 253, exp: 2 },
            last_updated_slot: 9,
            unix_timestamp: 1040,
            generic_data: [0; 24],
        })
    );
}

#[test]
fn twap_price_of_an_entry_beyond_the_table_fails() {
    let (mappings, twaps) = stores(vec![sample(1, 0, 1, 1)]);
    let clock = Clock { slot: 1, unix_timestamp: 10 };
    assert_eq!(twap::get_price(&mappings, &twaps, 2, &clock), Err(ScopeError::BadTokenNb));
}

#[test]
fn twap_price_before_the_epoch_fails() {
    let (mappings, twaps) = stores(vec![sample(1, 0, 1, 1)]);
    let clock = Clock { slot: 1, unix_timestamp: -1 };
    assert_eq!(
        twap::get_price(&mappings, &twaps, 1, &clock),
        Err(ScopeError::OutOfRangeIntegralConversion)
    );
}

#[test]
fn twap_price_with_a_source_beyond_the_tables_fails() {
    let (mut mappings, twaps) = stores(vec![sample(1, 0, 1, 1)]);
    mappings.entries[1].twap_source = 2;
    let clock = Clock { slot: 1, unix_timestamp: 10 };
    assert_eq!(
        twap::get_price(&mappings, &twaps, 1, &clock),
        Err(ScopeError::TwapSourceIndexOutOfRange)
    );
    // The history store is shorter than the table.
    mappings.entries[1].twap_source = 1;
    let short = OracleTwaps { twaps: vec![TwapHistory { samples: vec![] }] };
    assert_eq!(
        twap::get_price(&mappings, &short, 1, &clock),
        Err(ScopeError::TwapSourceIndexOutOfRange)
    );
}

#[test]
fn twap_of_a_twap_or_of_a_retired_kind_fails() {
    let clock = Clock { slot: 1, unix_timestamp: 10 };
    for bad in [12u8, 1, 3, 24, 255] {
        let (mut mappings, twaps) = stores(vec![sample(1, 0, 1, 1)]);
        mappings.entries[0].price_type = bad;
        assert_eq!(
            twap::get_price(&mappings, &twaps, 1, &clock),
            Err(ScopeError::TwapSourceNotEligible)
        );
    }
    assert!(twap::is_eligible_source(OracleType::FixedPrice.to_u8()));
    assert!(twap::is_eligible_source(OracleType::Pyth.to_u8()));
    assert!(!twap::is_eligible_source(OracleType::ScopeTwap.to_u8()));
}

#[test]
fn twap_price_of_an_empty_history_fails() {
    let (mappings, twaps) = stores(vec![]);
    let clock = Clock { slot: 1, unix_timestamp: 10 };
    assert_eq!(
        twap::get_price(&mappings, &twaps, 1, &clock),
        Err(ScopeError::TwapNotEnoughSamples)
    );
}

#[test]
fn twap_source_is_admitted_inside_a_full_table_only() {
    assert_eq!(twap::validate_price_account(0), Ok(()));
    assert_eq!(twap::validate_price_account((MAX_ENTRIES - 1) as u16), Ok(()));
    assert_eq!(
        twap::validate_price_account(MAX_ENTRIES as u16),
        Err(ScopeError::TwapSourceIndexOutOfRange)
    );
    assert_eq!(twap::validate_price_account(u16::MAX), Err(ScopeError::TwapSourceIndexOutOfRange));
}
