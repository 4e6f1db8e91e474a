use scope_oracles::math::{checked_pow10, checked_rescale};
use scope_oracles::price::{DatedPrice, Price};

fn payload(value: u64, exp: u64, tail: [u8; 4]) -> [u8; 20] {
    let mut bytes = [0u8; 20];
    bytes[..8].copy_from_slice(&value.to_le_bytes());
    bytes[8..16].copy_from_slice(&exp.to_le_bytes());
    bytes[16..].copy_from_slice(&tail);
    bytes
}

#[test]
fn default_price_is_zero_with_zero_exponent() {
    assert_eq!(Price::default(), Price { value: 0, exp: 0 });
    assert_eq!(
        DatedPrice::default(),
        DatedPrice {
            price: Price { value: 0, exp: 0 },
            last_updated_slot: 0,
            unix_timestamp: 0,
            generic_data: [0; 24],
        }
    );
}

#[test]
fn new_dated_price_has_empty_metadata() {
    let dated = DatedPrice::new(Price { value: 7, exp: 2 }, 11, 13);
    assert_eq!(dated.price, Price { value: 7, exp: 2 });
    assert_eq!(dated.last_updated_slot, 11);
    assert_eq!(dated.unix_timestamp, 13);
    assert_eq!(dated.generic_data, [0u8; 24]);
}

#[test]
fn price_decodes_least_significant_byte_first() {
    let bytes: [u8; 16] = [0x39, 0x30, 0, 0, 0, 0, 0, 0, 6, 0, 0, 0, 0, 0, 0, 0];
    assert_eq!(Price::deserialize(&bytes), Some(Price { value: 12345, exp: 6 }));
}

#[test]
fn price_decodes_every_byte_at_its_weight() {
    let bytes: [u8; 16] = [1, 2, 3, 4, 5, 6, 7, 8, 9, 10, 11, 12, 13, 14, 15, 16];
    assert_eq!(
        Price::deserialize(&bytes),
        Some(Price { value: 0x0807_0605_0403_0201, exp: 0x100f_0e0d_0c0b_0a09 })
    );
}

#[test]
fn price_decoding_reads_sixteen_bytes_and_no_more() {
    let with_tail = payload(u64::MAX, 1, [0xff, 0xee, 0xdd, 0xcc]);
    let without = payload(u64::MAX, 1, [0, 0, 0, 0]);
    assert_eq!(Price::deserialize(&with_tail), Some(Price { value: u64::MAX, exp: 1 }));
    assert_eq!(Price::deserialize(&with_tail), Price::deserialize(&without));
}

#[test]
fn price_of_too_few_bytes_does_not_decode() {
    assert_eq!(Price::deserialize(&[]), None);
    assert_eq!(Price::deserialize(&[1, 2, 3, 4, 5, 6, 7]), None);
    assert_eq!(Price::deserialize(&[1, 0, 0, 0, 0, 0, 0, 0]), None);
    assert_eq!(Price::deserialize(&[0u8; 15]), None);
    assert_eq!(Price::deserialize(&[0u8; 16]), Some(Price { value: 0, exp: 0 }));
}

#[test]
fn powers_of_ten_up_to_the_last_that_fits() {
    assert_eq!(checked_pow10(0), Some(1));
    assert_eq!(checked_pow10(1), Some(10));
    assert_eq!(checked_pow10(6), Some(1_000_000));
    assert_eq!(checked_pow10(38), Some(100_000_000_000_000_000_000_000_000_000_000_000_000));
    assert_eq!(checked_pow10(39), None);
    assert_eq!(checked_pow10(u128::MAX), None);
}

#[test]
fn rescale_up_multiplies() {
    assert_eq!(checked_rescale(123, 2, 5), Some(123_000));
    assert_eq!(checked_rescale(123, 5, 5), Some(123));
    assert_eq!(checked_rescale(0, 0, 1000), Some(0));
    assert_eq!(checked_rescale(1, 0, 38), Some(100_000_000_000_000_000_000_000_000_000_000_000_000));
}

#[test]
fn rescale_up_beyond_u128_fails() {
    assert_eq!(checked_rescale(1, 0, 39), None);
    assert_eq!(checked_rescale(4, 0, 38), None);
    assert_eq!(checked_rescale(u128::MAX, 0, 1), None);
}

#[test]
fn rescale_down_rounds_down() {
    assert_eq!(checked_rescale(123_999, 5, 2), Some(123));
    assert_eq!(checked_rescale(999, 3, 0), Some(0));
    assert_eq!(checked_rescale(1000, 3, 0), Some(1));
    assert_eq!(checked_rescale(u128::MAX, 39, 0), Some(0));
    assert_eq!(checked_rescale(u128::MAX, u128::MAX, 0), Some(0));
}
