use ledger_pipeline::amount::{coin_amount_text, decimal_text, UNITS_PER_COIN};

#[test]
fn one_coin_has_one_fraction_digit() {
    assert_eq!(coin_amount_text(1_000_000_000), "1.0");
}

#[test]
fn half_coin() {
    assert_eq!(coin_amount_text(500_000_000), "0.5");
}

#[test]
fn zero_units() {
    assert_eq!(coin_amount_text(0), "0.0");
}

#[test]
fn one_unit_keeps_all_decimals() {
    assert_eq!(coin_amount_text(1), "0.000000001");
}

#[test]
fn mixed_amount_trims_trailing_zeros() {
    assert_eq!(coin_amount_text(12_340_000_000), "12.34");
    assert_eq!(coin_amount_text(1_500_000_000), "1.5");
}

#[test]
fn largest_amount() {
    assert_eq!(coin_amount_text(u64::MAX), "18446744073.709551615");
}

#[test]
fn units_per_coin() {
    assert_eq!(UNITS_PER_COIN, 1_000_000_000);
}

#[test]
fn decimal_digits() {
    assert_eq!(decimal_text(0), "0");
    assert_eq!(decimal_text(7), "7");
    assert_eq!(decimal_text(1234567890), "1234567890");
    assert_eq!(decimal_text(u64::MAX), "18446744073709551615");
}
