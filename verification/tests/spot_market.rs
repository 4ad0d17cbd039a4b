use drift_spot::constants::SPOT_CUMULATIVE_INTEREST_PRECISION;
use drift_spot::error::ErrorCode;
use drift_spot::spot_market::{
    AssetTier, MarginRequirementType, SpotBalanceType, SpotFulfillmentStatus, SpotMarket,
};
use drift_spot::types::MarketStatus;

#[test]
fn active_market_without_expiry_is_active() {
    let market = SpotMarket::default_base_market();
    assert_eq!(market.is_active(0), Ok(true));
    assert_eq!(market.is_active(i64::MAX), Ok(true));
}

#[test]
fn settlement_and_delisted_are_inactive_regardless_of_expiry() {
    let mut market = SpotMarket::default_base_market();
    market.status = MarketStatus::Settlement;
    assert_eq!(market.is_active(0), Ok(false));
    market.expiry_ts = i64::MAX;
    assert_eq!(market.is_active(0), Ok(false));
    market.status = MarketStatus::Delisted;
    assert_eq!(market.is_active(0), Ok(false));
    market.expiry_ts = 0;
    assert_eq!(market.is_active(0), Ok(false));
}

#[test]
fn expired_market_is_inactive_regardless_of_status() {
    let mut market = SpotMarket::default_base_market();
    market.expiry_ts = 100;
    assert_eq!(market.is_active(99), Ok(true));
    assert_eq!(market.is_active(100), Ok(false));
    assert_eq!(market.is_active(101), Ok(false));
    market.status = MarketStatus::ReduceOnly;
    assert_eq!(market.is_active(100), Ok(false));
    market.status = MarketStatus::WithdrawPaused;
    assert_eq!(market.is_active(100), Ok(false));
}

#[test]
fn reduce_only_is_exactly_the_reduce_only_status() {
    let mut market = SpotMarket::default_base_market();
    assert_eq!(market.is_reduce_only(), Ok(false));
    market.status = MarketStatus::ReduceOnly;
    assert_eq!(market.is_reduce_only(), Ok(true));
    market.status = MarketStatus::Settlement;
    assert_eq!(market.is_reduce_only(), Ok(false));
}

#[test]
fn sanitize_clamp_denominator_matches_tier_table() {
    let mut market = SpotMarket::default_base_market();
    market.asset_tier = AssetTier::Collateral;
    assert_eq!(market.get_sanitize_clamp_denominator(), Ok(Some(10)));
    market.asset_tier = AssetTier::Protected;
    assert_eq!(market.get_sanitize_clamp_denominator(), Ok(Some(10)));
    market.asset_tier = AssetTier::Cross;
    assert_eq!(market.get_sanitize_clamp_denominator(), Ok(Some(5)));
    market.asset_tier = AssetTier::Isolated;
    assert_eq!(market.get_sanitize_clamp_denominator(), Ok(Some(3)));
    market.asset_tier = AssetTier::Unlisted;
    assert_eq!(market.get_sanitize_clamp_denominator(), Ok(None));
}

#[test]
fn margin_ratio_of_flat_quote_weights_is_zero() {
    let market = SpotMarket::default_quote_market();
    assert_eq!(
        market.get_margin_ratio(&MarginRequirementType::Initial),
        Ok(0)
    );
    assert_eq!(
        market.get_margin_ratio(&MarginRequirementType::Maintenance),
        Ok(0)
    );
}

#[test]
fn margin_ratio_fails_below_margin_precision() {
    let mut market = SpotMarket::default_quote_market();
    market.initial_liability_weight = 9000;
    assert_eq!(
        market.get_margin_ratio(&MarginRequirementType::Initial),
        Err(ErrorCode::MathError)
    );
    assert_eq!(
        market.get_margin_ratio(&MarginRequirementType::Maintenance),
        Ok(0)
    );
    let base = SpotMarket::default_base_market();
    assert_eq!(
        base.get_margin_ratio(&MarginRequirementType::Initial),
        Ok(2000)
    );
    assert_eq!(
        base.get_margin_ratio(&MarginRequirementType::Maintenance),
        Ok(1000)
    );
}

#[test]
fn available_deposits_subtracts_borrows() {
    let mut market = SpotMarket::default_base_market();
    market.deposit_balance = 100;
    market.borrow_balance = 40;
    assert_eq!(market.get_available_deposits(), Ok(60));
}

#[test]
fn available_deposits_fails_when_borrows_exceed_deposits() {
    let mut market = SpotMarket::default_base_market();
    market.deposit_balance = 100;
    market.borrow_balance = 200;
    assert_eq!(market.get_available_deposits(), Err(ErrorCode::MathError));
}

#[test]
fn available_deposits_fails_on_overflow() {
    let mut market = SpotMarket::default_base_market();
    market.deposit_balance = u128::MAX;
    market.borrow_balance = 0;
    assert_eq!(market.get_available_deposits(), Err(ErrorCode::MathError));
}

#[test]
fn token_amount_grows_with_the_interest_index() {
    let mut market = SpotMarket::default_base_market();
    market.deposit_balance = 100;
    market.borrow_balance = 0;
    assert_eq!(market.get_available_deposits(), Ok(100));
    market.cumulative_deposit_interest = 2 * SPOT_CUMULATIVE_INTEREST_PRECISION;
    assert_eq!(market.get_available_deposits(), Ok(200));
    market.cumulative_deposit_interest = 3 * SPOT_CUMULATIVE_INTEREST_PRECISION;
    assert_eq!(market.get_available_deposits(), Ok(300));
}

#[test]
fn precision_is_ten_to_the_decimals() {
    assert_eq!(SpotMarket::default_base_market().get_precision(), 1_000_000_000);
    assert_eq!(SpotMarket::default_quote_market().get_precision(), 1_000_000);
}

#[test]
fn balance_type_names_are_stable() {
    assert_eq!(
        SpotBalanceType::Deposit.as_str(),
        "SpotBalanceType::Deposit"
    );
    assert_eq!(SpotBalanceType::Borrow.as_str(), "SpotBalanceType::Borrow");
}

#[test]
fn defaults_pick_the_zero_value_variants() {
    assert_eq!(AssetTier::default(), AssetTier::Unlisted);
    assert_eq!(SpotBalanceType::default(), SpotBalanceType::Deposit);
    assert_eq!(SpotFulfillmentStatus::default(), SpotFulfillmentStatus::Enabled);
    assert_eq!(MarketStatus::default(), MarketStatus::Initialized);
    let market = SpotMarket::default();
    assert_eq!(market.deposit_balance, 0);
    assert_eq!(market.borrow_balance, 0);
    assert_eq!(market.asset_tier, AssetTier::Unlisted);
    assert_eq!(market.status, MarketStatus::Initialized);
    assert_eq!(market.insurance_fund.total_shares, 0);
    assert_eq!(market.insurance_fund.user_shares, 0);
}

#[test]
fn default_markets_match_their_listing_parameters() {
    let base = SpotMarket::default_base_market();
    assert_eq!(base.market_index, 1);
    assert_eq!(base.decimals, 9);
    assert_eq!(base.initial_asset_weight, 8000);
    assert_eq!(base.maintenance_asset_weight, 9000);
    assert_eq!(base.initial_liability_weight, 12000);
    assert_eq!(base.maintenance_liability_weight, 11000);
    assert_eq!(base.cumulative_deposit_interest, SPOT_CUMULATIVE_INTEREST_PRECISION);
    assert_eq!(base.cumulative_borrow_interest, SPOT_CUMULATIVE_INTEREST_PRECISION);
    assert_eq!(base.status, MarketStatus::Active);
    let quote = SpotMarket::default_quote_market();
    assert_eq!(quote.market_index, 0);
    assert_eq!(quote.decimals, 6);
    assert_eq!(quote.initial_asset_weight, 10000);
    assert_eq!(quote.maintenance_asset_weight, 10000);
    assert_eq!(quote.initial_liability_weight, 10000);
    assert_eq!(quote.maintenance_liability_weight, 10000);
    assert_eq!(quote.status, MarketStatus::Active);
}
