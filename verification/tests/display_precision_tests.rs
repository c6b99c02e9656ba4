use trust_cli::decimal::Decimal;
use trust_cli::display_precision::{
    fixed_decimal, format_price, format_quantity, trim_decimal, DisplayPrecision,
    TradingVehicleCategory,
};

fn d(mantissa: i128, scale: u32) -> Decimal {
    Decimal::from_i128_with_scale(mantissa, scale)
}

#[test]
fn stock_prices_are_fixed_to_cents_and_quantities_allow_fractional_shares() {
    assert_eq!(format_price(TradingVehicleCategory::Stock, d(1825, 1)), "182.50");
    assert_eq!(
        format_quantity(TradingVehicleCategory::Stock, d(12500004, 7)),
        "1.25"
    );
}

#[test]
fn crypto_quantities_keep_eight_decimal_places_when_needed() {
    assert_eq!(
        format_quantity(TradingVehicleCategory::Crypto, d(123456, 9)),
        "0.00012346"
    );
    assert_eq!(
        format_price(TradingVehicleCategory::Crypto, d(68123450000001, 9)),
        "68123.45"
    );
}

#[test]
fn bond_prices_are_quoted_to_thousandths() {
    assert_eq!(format_price(TradingVehicleCategory::Bond, d(9875, 2)), "98.750");
    assert_eq!(format_quantity(TradingVehicleCategory::Bond, d(12345, 4)), "1.235");
}

#[test]
fn precision_table_per_category() {
    let p = DisplayPrecision::for_category(TradingVehicleCategory::Fiat);
    assert_eq!(p, DisplayPrecision { price_dp: 2, quantity_dp: 2, trim_price: false });
    let p = DisplayPrecision::for_category(TradingVehicleCategory::Etf);
    assert_eq!(p, DisplayPrecision { price_dp: 2, quantity_dp: 6, trim_price: false });
    let p = DisplayPrecision::for_category(TradingVehicleCategory::Crypto);
    assert_eq!(p, DisplayPrecision { price_dp: 8, quantity_dp: 8, trim_price: true });
}

#[test]
fn rounding_is_half_away_from_zero() {
    assert_eq!(fixed_decimal(d(125, 3), 2), "0.13");
    assert_eq!(fixed_decimal(d(-125, 3), 2), "-0.13");
    assert_eq!(fixed_decimal(d(124, 3), 2), "0.12");
    assert_eq!(fixed_decimal(d(-1, 3), 2), "0.00");
    assert_eq!(fixed_decimal(d(5, 0), 2), "5.00");
}

#[test]
fn trimming_drops_trailing_zeros_and_zero_scale() {
    assert_eq!(trim_decimal(d(1500, 3), 8), "1.5");
    assert_eq!(trim_decimal(d(0, 5), 8), "0");
    assert_eq!(trim_decimal(d(-2000, 3), 2), "-2");
}

#[test]
fn decimal_text_matches_rust_decimal() {
    assert_eq!(trim_decimal(d(-12345, 2), 8), "-123.45");
    assert_eq!(trim_decimal(d(5, 3), 8), "0.005");
    assert_eq!(fixed_decimal(d(5, 3), 1), "0.0");
    assert_eq!(fixed_decimal(d(7, 0), 3), "7.000");
    assert_eq!(trim_decimal(d(100, 2), 4), "1");
    assert_eq!(fixed_decimal(d(-5, 1), 0), "-1");
}
