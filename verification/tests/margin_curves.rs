use drift_spot::error::ErrorCode;
use drift_spot::spot_market::{MarginRequirementType, SpotMarket};

fn sized_market(decimals: u32, imf_factor: u32) -> SpotMarket {
    let mut market = SpotMarket::default_base_market();
    market.decimals = decimals;
    market.imf_factor = imf_factor;
    market
}

#[test]
fn asset_weight_unchanged_at_zero_imf_factor() {
    // Base market: decimals = 9, initial_asset_weight = 8000, imf_factor = 0.
    let market = SpotMarket::default_base_market();
    assert_eq!(
        market.get_asset_weight(1_000_000, &MarginRequirementType::Initial),
        Ok(8000)
    );
}

#[test]
fn maintenance_asset_weight_is_flat_and_size_independent() {
    let market = sized_market(6, 100_000);
    assert_eq!(
        market.get_asset_weight(0, &MarginRequirementType::Maintenance),
        Ok(9000)
    );
    assert_eq!(
        market.get_asset_weight(u128::MAX, &MarginRequirementType::Maintenance),
        Ok(9000)
    );
}

#[test]
fn asset_weight_discount_exact_value() {
    // size 1_000_000_000 at 6 decimals rescales to 10^12 in reserve
    // precision; isqrt(10^13 + 1) = 3_162_277, so the discounted weight is
    // 11_000_000_000 / 4_162_277 = 2642.
    let market = sized_market(6, 100_000);
    assert_eq!(
        market.get_asset_weight(1_000_000_000, &MarginRequirementType::Initial),
        Ok(2642)
    );
}

#[test]
fn asset_weight_discount_capped_by_base_weight() {
    // A gentler curve yields a candidate of 8357, above the base 8000.
    let market = sized_market(6, 10_000);
    assert_eq!(
        market.get_asset_weight(1_000_000_000, &MarginRequirementType::Initial),
        Ok(8000)
    );
}

#[test]
fn asset_weight_discount_non_increasing_in_size() {
    let market = sized_market(6, 100_000);
    let small = market
        .get_asset_weight(1_000_000_000, &MarginRequirementType::Initial)
        .unwrap();
    let large = market
        .get_asset_weight(4_000_000_000, &MarginRequirementType::Initial)
        .unwrap();
    assert_eq!(small, 2642);
    assert_eq!(large, 1501);
    assert!(large <= small);
}

#[test]
fn asset_weight_at_zero_size_is_the_base_weight() {
    let market = sized_market(6, 100_000);
    assert_eq!(
        market.get_asset_weight(0, &MarginRequirementType::Initial),
        Ok(8000)
    );
}

#[test]
fn liability_weight_unchanged_at_zero_imf_factor() {
    let market = SpotMarket::default_base_market();
    assert_eq!(
        market.get_liability_weight(1_000_000, &MarginRequirementType::Initial),
        Ok(12000)
    );
    assert_eq!(
        market.get_liability_weight(1_000_000, &MarginRequirementType::Maintenance),
        Ok(11000)
    );
}

#[test]
fn liability_weight_premium_exact_value() {
    // size 1_000_000_000 at 6 decimals rescales to 10^12; the premium
    // candidate is (12000 - 2400) + 3_162_277 * 110_000 / 10^7 = 44385.
    let market = sized_market(6, 110_000);
    assert_eq!(
        market.get_liability_weight(1_000_000_000, &MarginRequirementType::Initial),
        Ok(44385)
    );
}

#[test]
fn liability_weight_premium_non_decreasing_in_size() {
    let market = sized_market(6, 110_000);
    let small = market
        .get_liability_weight(1_000_000_000, &MarginRequirementType::Initial)
        .unwrap();
    let large = market
        .get_liability_weight(4_000_000_000, &MarginRequirementType::Initial)
        .unwrap();
    assert_eq!(small, 44385);
    assert_eq!(large, 79170);
    assert!(large >= small);
}

#[test]
fn liability_weight_never_below_flat_base() {
    // A tiny position: the premium candidate 9601 is below the flat base
    // 12000, so the base wins.
    let market = sized_market(6, 110_000);
    assert_eq!(
        market.get_liability_weight(1, &MarginRequirementType::Initial),
        Ok(12000)
    );
}

#[test]
fn asset_weight_fails_on_rescale_overflow() {
    // At 6 decimals the size is scaled up by 10^3, which overflows u128
    // near its maximum.
    let market = sized_market(6, 100_000);
    assert_eq!(
        market.get_asset_weight(u128::MAX, &MarginRequirementType::Initial),
        Err(ErrorCode::MathError)
    );
    assert_eq!(
        market.get_liability_weight(u128::MAX, &MarginRequirementType::Initial),
        Err(ErrorCode::MathError)
    );
}

#[test]
fn high_decimal_sizes_are_divided_down() {
    // At 12 decimals the size is divided by 10^3 before the curve; a size
    // of 10^15 rescales to 10^12, matching the exact-value scenario.
    let market = sized_market(12, 100_000);
    assert_eq!(
        market.get_asset_weight(1_000_000_000_000_000, &MarginRequirementType::Initial),
        Ok(2642)
    );
}
