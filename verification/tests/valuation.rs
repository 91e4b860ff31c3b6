use unitas_oracle::compute_table_total;
use unitas_oracle::compute_total_aum;
use unitas_oracle::derive_price_per_unit;
use unitas_oracle::ten_pow;
use unitas_oracle::ten_pow_checked;
use unitas_oracle::compute_asset_value;
use unitas_oracle::ValuationError;

#[test]
fn scale_is_exact_powers_of_ten() {
    assert_eq!(ten_pow(0), 1);
    assert_eq!(ten_pow(1), 10);
    assert_eq!(ten_pow(6), 1_000_000);
    assert_eq!(ten_pow(15), 1_000_000_000_000_000);
    assert_eq!(ten_pow(30), 1_000_000_000_000_000_000_000_000_000_000);
    let mut expected: u128 = 1;
    for e in 0..=30u32 {
        assert_eq!(ten_pow(e), expected);
        if e < 30 {
            expected *= 10;
        }
    }
}

#[test]
fn scale_rejects_out_of_range_exponent() {
    assert_eq!(ten_pow_checked(31), None);
    assert_eq!(ten_pow_checked(u32::MAX), None);
    assert_eq!(ten_pow_checked(30), Some(ten_pow(30)));
    assert_eq!(ten_pow_checked(0), Some(1));
}

#[test]
fn value_scales_down_when_precision_exceeds_target() {
    // $1.50 at exponent 8, balance 2.0 tokens of 6 decimals -> $3.00
    let v = compute_asset_value(150_000_000, -8, 2_000_000, 6).unwrap();
    assert_eq!(v, 3_000_000);
    // the exponent's sign never matters: only its magnitude enters
    let v = compute_asset_value(150_000_000, 8, 2_000_000, 6).unwrap();
    assert_eq!(v, 3_000_000);
}

#[test]
fn value_scales_up_when_precision_is_below_target() {
    // price in cents (exponent 2), token of 2 decimals, balance 5.00 -> $7.50
    let v = compute_asset_value(150, -2, 500, 2).unwrap();
    assert_eq!(v, 7_500_000);
}

#[test]
fn negative_price_contributes_its_magnitude() {
    let v = compute_asset_value(-150_000_000, -8, 2_000_000, 6).unwrap();
    assert_eq!(v, 3_000_000);
}

#[test]
fn value_overflow_is_a_fatal_error() {
    let r = compute_asset_value(i64::MAX, 0, u64::MAX, 0);
    assert_eq!(r, Err(ValuationError::ArithmeticOverflow));
}

#[test]
fn table_total_sums_every_balance() {
    let balances = vec![2_000_000u64, 1_000_000, 500_000];
    let total = compute_table_total(150_000_000, -8, 6, &balances).unwrap();
    assert_eq!(total, 3_000_000 + 1_500_000 + 750_000);
    let none: Vec<u64> = Vec::new();
    assert_eq!(compute_table_total(150_000_000, -8, 6, &none), Ok(0));
}

#[test]
fn table_total_overflow_is_a_fatal_error() {
    let balances = vec![u64::MAX, u64::MAX];
    let r = compute_table_total(i64::MAX, 0, 0, &balances);
    assert_eq!(r, Err(ValuationError::ArithmeticOverflow));
}

#[test]
fn total_aum_adds_base_and_tables() {
    let totals = vec![3_000_000u128, 1_500_000, 750_000];
    assert_eq!(compute_total_aum(100, &totals), Ok(5_250_100));
    let none: Vec<u128> = Vec::new();
    assert_eq!(compute_total_aum(7, &none), Ok(7));
}

#[test]
fn total_aum_is_order_independent() {
    let a = vec![3_000_000u128, 1_500_000, 750_000, 42];
    let b = vec![42u128, 750_000, 3_000_000, 1_500_000];
    let c = vec![1_500_000u128, 42, 750_000, 3_000_000];
    let ra = compute_total_aum(9, &a).unwrap();
    let rb = compute_total_aum(9, &b).unwrap();
    let rc = compute_total_aum(9, &c).unwrap();
    assert_eq!(ra, rb);
    assert_eq!(ra, rc);
}

#[test]
fn total_aum_overflow_is_a_fatal_error() {
    let totals = vec![1u128];
    assert_eq!(
        compute_total_aum(u128::MAX, &totals),
        Err(ValuationError::ArithmeticOverflow)
    );
}

#[test]
fn price_per_unit_fails_on_zero_supply() {
    assert_eq!(
        derive_price_per_unit(0, 0),
        Err(ValuationError::DivisionByZero)
    );
    assert_eq!(
        derive_price_per_unit(5_000_000, 0),
        Err(ValuationError::DivisionByZero)
    );
}

#[test]
fn price_per_unit_is_scale_invariant_fixed_point() {
    // $3.00 of value over 2.0 units -> $1.50 per unit, at six decimals
    assert_eq!(derive_price_per_unit(3_000_000, 2_000_000), Ok(1_500_000));
    assert_eq!(derive_price_per_unit(0, 5), Ok(0));
    // truncation toward zero
    assert_eq!(derive_price_per_unit(1, 3), Ok(333_333));
}

#[test]
fn price_per_unit_overflow_is_a_fatal_error() {
    assert_eq!(
        derive_price_per_unit(u128::MAX, 1),
        Err(ValuationError::ArithmeticOverflow)
    );
}

#[test]
fn valuation_error_messages_are_human_readable() {
    assert_eq!(ValuationError::ArithmeticOverflow.message(), "Arithmetic overflow");
    assert_eq!(ValuationError::DivisionByZero.message(), "Division by zero");
    assert_eq!(
        ValuationError::MalformedExternalData.message(),
        "Malformed external data"
    );
    assert_eq!(ValuationError::MismatchedAsset.message(), "Mismatched asset");
}
