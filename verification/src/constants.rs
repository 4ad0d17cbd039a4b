//! Fixed-point precision constants.
//!
//! Every ratio in the engine uses an explicit power-of-ten precision constant
//! rather than floating point, so results are bit-reproducible.

use vstd::prelude::*;

verus! {

/// Scale of the cumulative interest indices: a token amount is
/// `balance * cumulative_index / SPOT_CUMULATIVE_INTEREST_PRECISION`.
pub const SPOT_CUMULATIVE_INTEREST_PRECISION: u128 = 10_000_000_000;

/// Canonical reserve precision: position sizes are rescaled into this unit
/// before the weight curves are evaluated, so one curve-steepness calibration
/// serves tokens of every native decimal precision.
pub const AMM_RESERVE_PRECISION: u128 = 1_000_000_000;

/// Denominator of margin-ratio fractions.
pub const MARGIN_PRECISION: u32 = 10_000;

/// Denominator of the four spot weight fractions.
pub const SPOT_WEIGHT_PRECISION: u32 = 10_000;

/// `SPOT_WEIGHT_PRECISION` as the 128-bit magnitude the curves compute in.
pub const SPOT_WEIGHT_PRECISION_U128: u128 = 10_000;

/// Scale of the increasing-marginal-factor curve-steepness parameter.
pub const SPOT_IMF_PRECISION: u128 = 1_000_000;

} // verus!
