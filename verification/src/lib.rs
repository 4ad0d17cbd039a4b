//! Spot-market balance and margin-weight accounting.
//!
//! The crate converts pooled, interest-bearing balances into concrete token
//! amounts, derives risk-adjusted collateral and liability weights that scale
//! with position size, classifies markets into risk tiers, and exposes the
//! lifecycle and insurance-fund state that surrounding components consult.
//! All arithmetic is overflow-checked fixed-point integer math: a computation
//! that would wrap reports an arithmetic error instead.

pub mod constants;
pub mod error;
pub mod margin;
pub mod safe_math;
pub mod spot_balance;
pub mod spot_market;
pub mod sqrt;
pub mod types;
