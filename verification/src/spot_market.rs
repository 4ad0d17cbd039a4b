//! The spot-market record and its policy, lifecycle and accounting queries.

use vstd::prelude::*;

use crate::constants::MARGIN_PRECISION;
use crate::error::{DriftResult, ErrorCode};
use crate::safe_math::{pow10, pow10_u64, safe_sub, safe_sub_u32};
use crate::types::{
    HistoricalIndexData, HistoricalOracleData, MarketStatus, OracleSource, PoolBalance, Pubkey,
    SpotFulfillmentType,
};

verus! {

/// One tradable asset's market: pooled interest-bearing balances, risk
/// parameters, operational bounds, lifecycle state and the embedded
/// insurance fund.
#[derive(PartialEq, Eq, Debug)]
pub struct SpotMarket {
    pub pubkey: Pubkey,
    pub oracle: Pubkey,
    pub mint: Pubkey,
    pub vault: Pubkey,
    pub name: [u8; 32],
    pub historical_oracle_data: HistoricalOracleData,
    pub historical_index_data: HistoricalIndexData,
    pub revenue_pool: PoolBalance,
    pub spot_fee_pool: PoolBalance,
    pub insurance_fund: InsuranceFund,
    pub total_spot_fee: u128,
    pub deposit_balance: u128,
    pub borrow_balance: u128,
    pub cumulative_deposit_interest: u128,
    pub cumulative_borrow_interest: u128,
    pub withdraw_guard_threshold: u64,
    pub max_token_deposits: u64,
    pub deposit_token_twap: u64,
    pub borrow_token_twap: u64,
    pub utilization_twap: u64,
    pub last_interest_ts: u64,
    pub last_twap_ts: u64,
    pub expiry_ts: i64,
    pub order_step_size: u64,
    pub order_tick_size: u64,
    pub min_order_size: u64,
    pub max_position_size: u64,
    pub next_fill_record_id: u64,
    pub next_deposit_record_id: u64,
    pub initial_asset_weight: u32,
    pub maintenance_asset_weight: u32,
    pub initial_liability_weight: u32,
    pub maintenance_liability_weight: u32,
    pub imf_factor: u32,
    pub liquidator_fee: u32,
    pub if_liquidation_fee: u32,
    pub optimal_utilization: u32,
    pub optimal_borrow_rate: u32,
    pub max_borrow_rate: u32,
    pub decimals: u32,
    pub market_index: u16,
    pub orders_enabled: bool,
    pub oracle_source: OracleSource,
    pub status: MarketStatus,
    pub asset_tier: AssetTier,
    pub padding: [u8; 6],
}

impl SpotMarket {
    /// A market is active iff its status is neither `Settlement` nor
    /// `Delisted` and it has not expired (`expiry_ts == 0` means
    /// non-expiring).
    pub open spec fn is_active_spec(&self, now: i64) -> bool {
        &&& !(self.status is Settlement)
        &&& !(self.status is Delisted)
        &&& (self.expiry_ts == 0 || now < self.expiry_ts)
    }

    /// Whether the market accepts operations at all at time `now`.
    pub fn is_active(&self, now: i64) -> (r: DriftResult<bool>)
        ensures
            r == Ok::<bool, ErrorCode>(self.is_active_spec(now)),
    {
        let status_ok = !matches!(
            self.status,
            MarketStatus::Settlement | MarketStatus::Delisted
        );
        let not_expired = self.expiry_ts == 0 || now < self.expiry_ts;
        Ok(status_ok && not_expired)
    }

    /// Whether only position-decreasing actions are permitted: true iff the
    /// status is exactly `ReduceOnly`.
    pub fn is_reduce_only(&self) -> (r: DriftResult<bool>)
        ensures
            r == Ok::<bool, ErrorCode>(self.status is ReduceOnly),
    {
        Ok(self.status == MarketStatus::ReduceOnly)
    }

    /// How far a derived price or twap may deviate per update, as a
    /// `1/denominator` fraction of the reference, by risk tier.
    pub fn get_sanitize_clamp_denominator(&self) -> (r: DriftResult<Option<i64>>)
        ensures
            r == Ok::<Option<i64>, ErrorCode>(sanitize_clamp_denominator_spec(self.asset_tier)),
    {
        Ok(match self.asset_tier {
            AssetTier::Collateral => Some(10),  // 10%
            AssetTier::Protected => Some(10),  // 10%
            AssetTier::Cross => Some(5),  // 20%
            AssetTier::Isolated => Some(3),  // 50%
            AssetTier::Unlisted => None,  // falls back to a system-wide default
        })
    }

    /// The asset weight granted to a deposit of the given size, in the
    /// token's native units. The maintenance requirement uses the flat
    /// maintenance weight unmodified, independent of size; the initial
    /// requirement applies the size-discount curve to the flat initial
    /// weight. Fails with an arithmetic error when rescaling the size or
    /// forming the curve input overflows.
    pub fn get_asset_weight(&self, size: u128, margin_requirement_type: &MarginRequirementType)
        -> (r: DriftResult<u32>)
        ensures
            margin_requirement_type is Maintenance ==> r == Ok::<u32, ErrorCode>(
                self.maintenance_asset_weight,
            ),
            margin_requirement_type is Initial ==> ({
                let rescaled = crate::margin::size_in_reserve_precision(
                    size as nat,
                    self.decimals as nat,
                );
                let ok = crate::margin::rescale_ok(size as nat, self.decimals as nat) && (
                self.imf_factor == 0 || crate::margin::curve_input_ok(rescaled));
                r == if ok {
                    Ok::<u32, ErrorCode>(
                        crate::margin::discount_asset_weight_spec(
                            rescaled,
                            self.imf_factor as nat,
                            self.initial_asset_weight as nat,
                        ) as u32,
                    )
                } else {
                    Err::<u32, ErrorCode>(ErrorCode::MathError)
                }
            }),
    {
        match margin_requirement_type {
            MarginRequirementType::Initial => {
                let size_in_amm_reserve_precision = match crate::margin::scale_to_reserve_precision(
                    size,
                    self.decimals,
                ) {
                    Ok(v) => v,
                    Err(e) => {
                        return Err(e);
                    },
                };
                crate::margin::calculate_size_discount_asset_weight(
                    size_in_amm_reserve_precision,
                    self.imf_factor,
                    self.initial_asset_weight,
                )
            },
            MarginRequirementType::Maintenance => Ok(self.maintenance_asset_weight),
        }
    }

    /// The liability weight charged to a borrow of the given size, in the
    /// token's native units: the flat weight of the requirement type, raised
    /// by the size-premium curve and never below that flat base. Fails with
    /// an arithmetic error when rescaling the size or evaluating the curve
    /// overflows.
    pub fn get_liability_weight(&self, size: u128, margin_requirement_type: &MarginRequirementType)
        -> (r: DriftResult<u32>)
        ensures
            ({
                let flat = if margin_requirement_type is Initial {
                    self.initial_liability_weight
                } else {
                    self.maintenance_liability_weight
                };
                let rescaled = crate::margin::size_in_reserve_precision(
                    size as nat,
                    self.decimals as nat,
                );
                let ok = crate::margin::rescale_ok(size as nat, self.decimals as nat) && (
                self.imf_factor == 0 || crate::margin::premium_input_ok(
                    rescaled,
                    self.imf_factor as nat,
                    flat as nat,
                    crate::constants::SPOT_WEIGHT_PRECISION_U128 as nat,
                ));
                &&& r == if ok {
                    Ok::<u32, ErrorCode>(
                        crate::margin::premium_liability_weight_spec(
                            rescaled,
                            self.imf_factor as nat,
                            flat as nat,
                            crate::constants::SPOT_WEIGHT_PRECISION_U128 as nat,
                        ) as u32,
                    )
                } else {
                    Err::<u32, ErrorCode>(ErrorCode::MathError)
                }
                &&& (r matches Ok(v) ==> v >= flat)
                &&& (self.imf_factor == 0 && crate::margin::rescale_ok(
                    size as nat,
                    self.decimals as nat,
                ) ==> r == Ok::<u32, ErrorCode>(flat))
            }),
    {
        let size_in_amm_reserve_precision = match crate::margin::scale_to_reserve_precision(
            size,
            self.decimals,
        ) {
            Ok(v) => v,
            Err(e) => {
                return Err(e);
            },
        };

        let default_liability_weight = match margin_requirement_type {
            MarginRequirementType::Initial => self.initial_liability_weight,
            MarginRequirementType::Maintenance => self.maintenance_liability_weight,
        };

        let size_based_liability_weight =
            match crate::margin::calculate_size_premium_liability_weight(
            size_in_amm_reserve_precision,
            self.imf_factor,
            default_liability_weight,
            crate::constants::SPOT_WEIGHT_PRECISION_U128,
        ) {
            Ok(v) => v,
            Err(e) => {
                return Err(e);
            },
        };

        let liability_weight = if size_based_liability_weight >= default_liability_weight {
            size_based_liability_weight
        } else {
            default_liability_weight
        };

        Ok(liability_weight)
    }

    /// The margin ratio a spot borrow contributes when it backs a
    /// cross-margined perpetual position: the flat liability weight less the
    /// margin precision constant. Fails when the weight is below that
    /// constant.
    pub fn get_margin_ratio(&self, margin_requirement_type: &MarginRequirementType) -> (r:
        DriftResult<u32>)
        ensures
            ({
                let flat = if margin_requirement_type is Initial {
                    self.initial_liability_weight
                } else {
                    self.maintenance_liability_weight
                };
                r == if flat >= MARGIN_PRECISION {
                    Ok::<u32, ErrorCode>((flat - MARGIN_PRECISION) as u32)
                } else {
                    Err::<u32, ErrorCode>(ErrorCode::MathError)
                }
            }),
    {
        let liability_weight = match margin_requirement_type {
            MarginRequirementType::Initial => self.initial_liability_weight,
            MarginRequirementType::Maintenance => self.maintenance_liability_weight,
        };
        safe_sub_u32(liability_weight, MARGIN_PRECISION)
    }

    /// What the pooled deposits can still cover: the deposit token amount
    /// less the borrow token amount. Fails with an arithmetic error — never
    /// wraps — whenever the borrow token amount exceeds the deposit token
    /// amount, and on overflow of either conversion.
    pub fn get_available_deposits(&self) -> (r: DriftResult<u128>)
        ensures
            ({
                let deposits = crate::spot_balance::token_amount_spec(
                    self.deposit_balance as nat,
                    self.cumulative_deposit_interest as nat,
                );
                let borrows = crate::spot_balance::token_amount_spec(
                    self.borrow_balance as nat,
                    self.cumulative_borrow_interest as nat,
                );
                let ok = crate::spot_balance::token_amount_ok(
                    self.deposit_balance as nat,
                    self.cumulative_deposit_interest as nat,
                ) && crate::spot_balance::token_amount_ok(
                    self.borrow_balance as nat,
                    self.cumulative_borrow_interest as nat,
                ) && borrows <= deposits;
                r == if ok {
                    Ok::<u128, ErrorCode>((deposits - borrows) as u128)
                } else {
                    Err::<u128, ErrorCode>(ErrorCode::MathError)
                }
            }),
    {
        let deposit_token_amount = match crate::spot_balance::get_token_amount(
            self.deposit_balance,
            self,
            &SpotBalanceType::Deposit,
        ) {
            Ok(v) => v,
            Err(e) => {
                return Err(e);
            },
        };

        let borrow_token_amount = match crate::spot_balance::get_token_amount(
            self.borrow_balance,
            self,
            &SpotBalanceType::Borrow,
        ) {
            Ok(v) => v,
            Err(e) => {
                return Err(e);
            },
        };

        safe_sub(deposit_token_amount, borrow_token_amount)
    }

    /// A freshly listed base (non-quote) market: unit interest indices,
    /// nine-decimal token, conservative non-flat weights, active status, and
    /// zero balances everywhere else.
    pub fn default_base_market() -> (r: Self)
        ensures
            r.market_index == 1,
            r.cumulative_deposit_interest == crate::constants::SPOT_CUMULATIVE_INTEREST_PRECISION,
            r.cumulative_borrow_interest == crate::constants::SPOT_CUMULATIVE_INTEREST_PRECISION,
            r.initial_liability_weight == 12000,
            r.maintenance_liability_weight == 11000,
            r.initial_asset_weight == 8000,
            r.maintenance_asset_weight == 9000,
            r.decimals == 9,
            r.order_tick_size == 1,
            r.status == MarketStatus::Active,
            r.imf_factor == 0,
            r.deposit_balance == 0,
            r.borrow_balance == 0,
            r.expiry_ts == 0,
            r.asset_tier == AssetTier::Unlisted,
    {
        SpotMarket {
            market_index: 1,
            cumulative_deposit_interest: crate::constants::SPOT_CUMULATIVE_INTEREST_PRECISION,
            cumulative_borrow_interest: crate::constants::SPOT_CUMULATIVE_INTEREST_PRECISION,
            initial_liability_weight: 12000,
            maintenance_liability_weight: 11000,
            initial_asset_weight: 8000,
            maintenance_asset_weight: 9000,
            decimals: 9,
            order_tick_size: 1,
            status: MarketStatus::Active,
            ..SpotMarket::default()
        }
    }

    /// A freshly listed quote market: unit interest indices, six-decimal
    /// token, flat weights at the full weight precision, active status, and
    /// zero balances everywhere else.
    pub fn default_quote_market() -> (r: Self)
        ensures
            r.market_index == 0,
            r.cumulative_deposit_interest == crate::constants::SPOT_CUMULATIVE_INTEREST_PRECISION,
            r.cumulative_borrow_interest == crate::constants::SPOT_CUMULATIVE_INTEREST_PRECISION,
            r.initial_liability_weight == 10000,
            r.maintenance_liability_weight == 10000,
            r.initial_asset_weight == 10000,
            r.maintenance_asset_weight == 10000,
            r.decimals == 6,
            r.order_tick_size == 1,
            r.status == MarketStatus::Active,
            r.imf_factor == 0,
            r.deposit_balance == 0,
            r.borrow_balance == 0,
            r.expiry_ts == 0,
    {
        SpotMarket {
            cumulative_deposit_interest: crate::constants::SPOT_CUMULATIVE_INTEREST_PRECISION,
            cumulative_borrow_interest: crate::constants::SPOT_CUMULATIVE_INTEREST_PRECISION,
            decimals: 6,
            initial_liability_weight: 10000,
            maintenance_liability_weight: 10000,
            initial_asset_weight: 10000,
            maintenance_asset_weight: 10000,
            order_tick_size: 1,
            status: MarketStatus::Active,
            ..SpotMarket::default()
        }
    }

    /// The token's native unit scale, `10^decimals`.
    pub fn get_precision(self) -> (r: u64)
        requires
            pow10(self.decimals as nat) <= u64::MAX,
        ensures
            r == pow10(self.decimals as nat),
    {
        match pow10_u64(self.decimals) {
            Ok(v) => v,
            Err(_) => {
                proof {
                    assert(false);
                }
                0
            },
        }
    }
}

/// The clamp denominator each tier maps to; the lowest tier is unclamped.
pub open spec fn sanitize_clamp_denominator_spec(tier: AssetTier) -> Option<i64> {
    match tier {
        AssetTier::Collateral => Some(10),
        AssetTier::Protected => Some(10),
        AssetTier::Cross => Some(5),
        AssetTier::Isolated => Some(3),
        AssetTier::Unlisted => None,
    }
}

/// Which requirement a margin check is computing: the stricter weights used
/// to open a position, or the flat weights used to keep it.
#[derive(Clone, Copy, PartialEq, Eq, Structural, Debug)]
pub enum MarginRequirementType {
    Initial,
    Maintenance,
}

/// Whether a normalized balance counts toward pooled deposits or borrows.
#[derive(Clone, Copy, PartialEq, Eq, Structural, Debug)]
pub enum SpotBalanceType {
    Deposit,
    Borrow,
}

impl SpotBalanceType {
    /// Stable textual name of the variant.
    pub fn as_str(&self) -> (r: &'static str)
        ensures
            self is Deposit ==> r@ == "SpotBalanceType::Deposit"@,
            self is Borrow ==> r@ == "SpotBalanceType::Borrow"@,
    {
        match self {
            SpotBalanceType::Deposit => "SpotBalanceType::Deposit",
            SpotBalanceType::Borrow => "SpotBalanceType::Borrow",
        }
    }
}

impl Default for SpotBalanceType {
    fn default() -> (r: Self)
        ensures
            r == SpotBalanceType::Deposit,
    {
        SpotBalanceType::Deposit
    }
}

/// Capability-style contract over a concrete balance-holding entity (a user
/// position, a pool balance): who owns the balance, on which market, and how
/// it may be mutated. Implemented outside this crate per entity type.
pub trait SpotBalance {
    fn market_index(&self) -> u16;

    fn balance_type(&self) -> &SpotBalanceType;

    fn balance(&self) -> u128;

    fn increase_balance(&mut self, delta: u128) -> DriftResult;

    fn decrease_balance(&mut self, delta: u128) -> DriftResult;

    fn update_balance_type(&mut self, balance_type: SpotBalanceType) -> DriftResult;
}

/// Static configuration for routing fills to an external venue. Consumed
/// opaquely.
#[derive(PartialEq, Eq, Debug)]
pub struct SerumV3FulfillmentConfig {
    pub pubkey: Pubkey,
    pub serum_program_id: Pubkey,
    pub serum_market: Pubkey,
    pub serum_request_queue: Pubkey,
    pub serum_event_queue: Pubkey,
    pub serum_bids: Pubkey,
    pub serum_asks: Pubkey,
    pub serum_base_vault: Pubkey,
    pub serum_quote_vault: Pubkey,
    pub serum_open_orders: Pubkey,
    pub serum_signer_nonce: u64,
    pub market_index: u16,
    pub fulfillment_type: SpotFulfillmentType,
    pub status: SpotFulfillmentStatus,
    pub padding: [u8; 4],
}

/// Whether an external fulfillment venue may be used.
#[derive(Clone, Copy, PartialEq, Eq, Structural, Debug)]
pub enum SpotFulfillmentStatus {
    Enabled,
    Disabled,
}

impl Default for SpotFulfillmentStatus {
    fn default() -> (r: Self)
        ensures
            r == SpotFulfillmentStatus::Enabled,
    {
        SpotFulfillmentStatus::Enabled
    }
}

/// Five-level risk classification driving collateral eligibility and
/// oracle-deviation clamp tolerance, from full privilege down to none.
#[derive(Clone, Copy, PartialEq, Eq, Structural, Debug)]
pub enum AssetTier {
    /// Full privilege; tightest clamp.
    Collateral,
    /// Usable as collateral, cannot be borrowed.
    Protected,
    /// Not collateral; multi-asset borrow allowed.
    Cross,
    /// Not collateral; only single-asset borrow.
    Isolated,
    /// No privilege; unclamped.
    Unlisted,
}

impl Default for AssetTier {
    fn default() -> (r: Self)
        ensures
            r == AssetTier::Unlisted,
    {
        AssetTier::Unlisted
    }
}

/// Rebasing share ledger of the shared-risk backstop pool. The settlement
/// algorithm is external; this record exposes its magnitudes and invariant.
#[derive(PartialEq, Eq, Debug)]
pub struct InsuranceFund {
    pub vault: Pubkey,
    pub total_shares: u128,
    pub user_shares: u128,
    pub shares_base: u128,
    pub unstaking_period: i64,
    pub last_revenue_settle_ts: i64,
    pub revenue_settle_period: i64,
    pub total_factor: u32,
    pub user_factor: u32,
}

impl InsuranceFund {
    /// Every operation changing shares must preserve this: stakers never hold
    /// more shares than exist.
    pub open spec fn shares_valid(&self) -> bool {
        self.user_shares <= self.total_shares
    }
}

impl Default for InsuranceFund {
    fn default() -> (r: Self)
        ensures
            r.total_shares == 0,
            r.user_shares == 0,
            r.shares_base == 0,
            r.unstaking_period == 0,
            r.last_revenue_settle_ts == 0,
            r.revenue_settle_period == 0,
            r.total_factor == 0,
            r.user_factor == 0,
            r.shares_valid(),
    {
        InsuranceFund {
            vault: Pubkey([0u8; 32]),
            total_shares: 0,
            user_shares: 0,
            shares_base: 0,
            unstaking_period: 0,
            last_revenue_settle_ts: 0,
            revenue_settle_period: 0,
            total_factor: 0,
            user_factor: 0,
        }
    }
}

impl Default for SpotMarket {
    fn default() -> (r: Self)
        ensures
            r.total_spot_fee == 0,
            r.deposit_balance == 0,
            r.borrow_balance == 0,
            r.cumulative_deposit_interest == 0,
            r.cumulative_borrow_interest == 0,
            r.withdraw_guard_threshold == 0,
            r.max_token_deposits == 0,
            r.last_interest_ts == 0,
            r.last_twap_ts == 0,
            r.expiry_ts == 0,
            r.order_step_size == 0,
            r.order_tick_size == 0,
            r.min_order_size == 0,
            r.max_position_size == 0,
            r.initial_asset_weight == 0,
            r.maintenance_asset_weight == 0,
            r.initial_liability_weight == 0,
            r.maintenance_liability_weight == 0,
            r.imf_factor == 0,
            r.decimals == 0,
            r.market_index == 0,
            r.orders_enabled == false,
            r.status == MarketStatus::Initialized,
            r.asset_tier == AssetTier::Unlisted,
            r.insurance_fund.total_shares == 0,
            r.insurance_fund.user_shares == 0,
    {
        SpotMarket {
            pubkey: Pubkey([0u8; 32]),
            oracle: Pubkey([0u8; 32]),
            mint: Pubkey([0u8; 32]),
            vault: Pubkey([0u8; 32]),
            name: [0u8; 32],
            historical_oracle_data: HistoricalOracleData {
                last_oracle_price: 0,
                last_oracle_conf: 0,
                last_oracle_delay: 0,
                last_oracle_price_twap: 0,
                last_oracle_price_twap_5min: 0,
                last_oracle_price_twap_ts: 0,
            },
            historical_index_data: HistoricalIndexData {
                last_index_bid_price: 0,
                last_index_ask_price: 0,
                last_index_price_twap: 0,
                last_index_price_twap_5min: 0,
                last_index_price_twap_ts: 0,
            },
            revenue_pool: PoolBalance { scaled_balance: 0, market_index: 0, padding: [0u8; 6] },
            spot_fee_pool: PoolBalance { scaled_balance: 0, market_index: 0, padding: [0u8; 6] },
            insurance_fund: InsuranceFund::default(),
            total_spot_fee: 0,
            deposit_balance: 0,
            borrow_balance: 0,
            cumulative_deposit_interest: 0,
            cumulative_borrow_interest: 0,
            withdraw_guard_threshold: 0,
            max_token_deposits: 0,
            deposit_token_twap: 0,
            borrow_token_twap: 0,
            utilization_twap: 0,
            last_interest_ts: 0,
            last_twap_ts: 0,
            expiry_ts: 0,
            order_step_size: 0,
            order_tick_size: 0,
            min_order_size: 0,
            max_position_size: 0,
            next_fill_record_id: 0,
            next_deposit_record_id: 0,
            initial_asset_weight: 0,
            maintenance_asset_weight: 0,
            initial_liability_weight: 0,
            maintenance_liability_weight: 0,
            imf_factor: 0,
            liquidator_fee: 0,
            if_liquidation_fee: 0,
            optimal_utilization: 0,
            optimal_borrow_rate: 0,
            max_borrow_rate: 0,
            decimals: 0,
            market_index: 0,
            orders_enabled: false,
            oracle_source: OracleSource::Pyth,
            status: MarketStatus::Initialized,
            asset_tier: AssetTier::Unlisted,
            padding: [0u8; 6],
        }
    }
}

} // verus!
