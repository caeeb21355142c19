//! Decimal-amount conversion: exact values, precision-loss rejection, range
//! checks, and the rendering round trip.

use btcjson::amount::{Amount, SignedAmount, FeeRate, ParseAmountError};
use btcjson::v17::GetBalance;

#[test]
fn balance_converts_to_exact_subunits() {
    let model = GetBalance("0.00515000".to_string()).into_model().unwrap();
    assert_eq!(model.0, Amount::from_sat(515_000));
}

#[test]
fn balance_projection_matches_into_model() {
    let a = GetBalance("0.00515000".to_string()).balance().unwrap();
    let b = GetBalance("0.00515000".to_string()).into_model().unwrap().0;
    assert_eq!(a, b);
}

#[test]
fn negative_balance_is_out_of_range_for_unsigned_field() {
    let err = GetBalance("-0.0001".to_string()).into_model().unwrap_err();
    assert_eq!(err, ParseAmountError::OutOfRange);
}

#[test]
fn negative_amount_converts_on_signed_field() {
    let a = SignedAmount::from_btc_text("-0.0001").unwrap();
    assert_eq!(a.to_sat(), -10_000);
}

#[test]
fn whole_coins_convert() {
    assert_eq!(Amount::from_btc_text("2").unwrap().to_sat(), 200_000_000);
    assert_eq!(Amount::from_btc_text("21000000.00000000").unwrap().to_sat(), 2_100_000_000_000_000);
}

#[test]
fn render_is_canonical() {
    assert_eq!(Amount::from_sat(515_000).to_btc_text(), "0.00515000");
    assert_eq!(Amount::from_sat(0).to_btc_text(), "0.00000000");
    assert_eq!(Amount::from_sat(200_000_000).to_btc_text(), "2.00000000");
    assert_eq!(SignedAmount::from_sat(-10_000).to_btc_text(), "-0.00010000");
}

#[test]
fn render_then_convert_returns_the_amount() {
    for sats in [0u64, 1, 515_000, 99_999_999, 100_000_000, 2_100_000_000_000_000, u64::MAX] {
        let text = Amount::from_sat(sats).to_btc_text();
        assert_eq!(Amount::from_btc_text(&text).unwrap().to_sat(), sats);
    }
    for sats in [0i64, -1, 10_000, -10_000, i64::MAX, i64::MIN] {
        let text = SignedAmount::from_sat(sats).to_btc_text();
        assert_eq!(SignedAmount::from_btc_text(&text).unwrap().to_sat(), sats);
    }
}

#[test]
fn inexact_values_fail_rather_than_round() {
    // A ninth fractional digit cannot be represented in subunits.
    assert_eq!(
        Amount::from_btc_text("0.000000001").unwrap_err(),
        ParseAmountError::InvalidDecimal
    );
    assert_eq!(
        SignedAmount::from_btc_text("-0.123456789").unwrap_err(),
        ParseAmountError::InvalidDecimal
    );
}

#[test]
fn malformed_decimals_are_invalid() {
    for bad in ["", "abc", "1..2", ".5", "1.", "--1", "1,0", "-", "1.2.3", " 1"] {
        assert_eq!(Amount::from_btc_text(bad).unwrap_err(), ParseAmountError::InvalidDecimal);
        assert_eq!(
            SignedAmount::from_btc_text(bad).unwrap_err(),
            ParseAmountError::InvalidDecimal
        );
    }
}

#[test]
fn too_large_values_are_out_of_range() {
    // Largest representable unsigned amount, then one subunit more.
    assert_eq!(
        Amount::from_btc_text("184467440737.09551615").unwrap().to_sat(),
        u64::MAX
    );
    assert_eq!(
        Amount::from_btc_text("184467440737.09551616").unwrap_err(),
        ParseAmountError::OutOfRange
    );
    assert_eq!(
        Amount::from_btc_text("999999999999999999").unwrap_err(),
        ParseAmountError::OutOfRange
    );
    // The signed type cuts off at the signed bound.
    assert_eq!(
        SignedAmount::from_btc_text("184467440737.09551615").unwrap_err(),
        ParseAmountError::OutOfRange
    );
    assert_eq!(SignedAmount::from_btc_text("-92233720368.54775808").unwrap().to_sat(), i64::MIN);
    assert_eq!(
        SignedAmount::from_btc_text("-92233720368.54775809").unwrap_err(),
        ParseAmountError::OutOfRange
    );
}

#[test]
fn fee_rate_divides_by_one_thousand() {
    let rate = FeeRate::from_btc_per_kvb_text("0.00001000").unwrap();
    assert_eq!(rate.sat_per_vb, 1);
    let rate = FeeRate::from_btc_per_kvb_text("0.00123000").unwrap();
    assert_eq!(rate.sat_per_vb, 123);
    assert_eq!(
        FeeRate::from_btc_per_kvb_text("x").unwrap_err(),
        ParseAmountError::InvalidDecimal
    );
}
