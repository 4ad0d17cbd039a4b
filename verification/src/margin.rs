//! Margin weight curves.
//!
//! Both curves are pure functions of a position size (rescaled into the
//! canonical reserve precision), an increasing-marginal-factor steepness
//! parameter, and a flat base weight. As size grows, the asset-weight curve
//! discounts the base weight downward — modeling reduced confidence in
//! liquidating large positions without slippage — and the liability-weight
//! curve raises it upward, modeling rising repayment risk. At zero steepness
//! either curve is a no-op.

use vstd::arithmetic::div_mod::{
    lemma_div_is_ordered, lemma_div_is_ordered_by_denominator, lemma_div_nonincreasing,
};
use vstd::prelude::*;

use crate::constants::{AMM_RESERVE_PRECISION, SPOT_IMF_PRECISION, SPOT_WEIGHT_PRECISION_U128};
use crate::error::{DriftResult, ErrorCode};
use crate::safe_math::{lemma_pow10_pos, pow10, pow10_u128, safe_add, safe_div, safe_mul};
use crate::sqrt::{isqrt, isqrt_spec, lemma_isqrt_monotonic, lemma_isqrt_unique};

verus! {

/// The square-root magnitude the curves grow by: `isqrt(10 * size + 1)`.
pub open spec fn size_sqrt_of(size: nat) -> nat {
    isqrt_spec(10 * size + 1)
}

/// Whether forming the curve's square-root argument stays within `u128`.
pub open spec fn curve_input_ok(size: nat) -> bool {
    10 * size + 1 <= u128::MAX
}

/// Denominator of the asset-weight discount fraction: the steeper the curve
/// and the larger the size, the larger the denominator.
pub open spec fn discount_denominator(size: nat, imf_factor: nat) -> nat {
    (SPOT_IMF_PRECISION as nat) + (size_sqrt_of(size) * imf_factor) / 100_000
}

/// The size-discounted candidate weight, before it is capped by the base.
pub open spec fn size_discounted_weight(size: nat, imf_factor: nat) -> nat {
    (((SPOT_IMF_PRECISION + SPOT_IMF_PRECISION / 10) * SPOT_WEIGHT_PRECISION_U128) as nat)
        / discount_denominator(size, imf_factor)
}

/// The asset weight granted to a position of the given size: the base weight
/// at zero steepness, else the smaller of the base weight and the
/// size-discounted candidate.
pub open spec fn discount_asset_weight_spec(size: nat, imf_factor: nat, asset_weight: nat) -> nat {
    if imf_factor == 0 {
        asset_weight
    } else if asset_weight <= size_discounted_weight(size, imf_factor) {
        asset_weight
    } else {
        size_discounted_weight(size, imf_factor)
    }
}

/// What the steepness term of the premium curve is divided by to land in
/// weight units of the given precision.
pub open spec fn premium_denominator_scale(precision: nat) -> nat {
    ((100_000 * SPOT_IMF_PRECISION) as nat) / precision
}

/// The size-premium candidate weight: four fifths of the base plus the
/// steepness term.
pub open spec fn size_premium_weight(
    size: nat,
    imf_factor: nat,
    liability_weight: nat,
    precision: nat,
) -> nat {
    ((liability_weight - liability_weight / 5) + (size_sqrt_of(size) * imf_factor)
        / premium_denominator_scale(precision)) as nat
}

/// The liability weight charged to a position of the given size: the base
/// weight at zero steepness, else the larger of the base weight and the
/// size-premium candidate — the premium can only make liabilities more
/// conservative.
pub open spec fn premium_liability_weight_spec(
    size: nat,
    imf_factor: nat,
    liability_weight: nat,
    precision: nat,
) -> nat {
    if imf_factor == 0 {
        liability_weight
    } else if size_premium_weight(size, imf_factor, liability_weight, precision)
        >= liability_weight {
        size_premium_weight(size, imf_factor, liability_weight, precision)
    } else {
        liability_weight
    }
}

/// Whether the premium curve's arithmetic stays representable: the
/// square-root argument fits, the precision admits a positive denominator,
/// and the candidate weight fits a `u32`.
pub open spec fn premium_input_ok(
    size: nat,
    imf_factor: nat,
    liability_weight: nat,
    precision: nat,
) -> bool {
    &&& curve_input_ok(size)
    &&& precision > 0
    &&& premium_denominator_scale(precision) >= 1
    &&& size_premium_weight(size, imf_factor, liability_weight, precision) <= u32::MAX
}

/// The asset weight after the size discount. At zero steepness the base
/// weight is returned unchanged; otherwise the discount strengthens with
/// size. Fails with an arithmetic error when the square-root argument
/// overflows.
pub fn calculate_size_discount_asset_weight(
    size_in_amm_reserve_precision: u128,
    imf_factor: u32,
    asset_weight: u32,
) -> (r: DriftResult<u32>)
    ensures
        imf_factor == 0 ==> r == Ok::<u32, ErrorCode>(asset_weight),
        imf_factor > 0 && curve_input_ok(size_in_amm_reserve_precision as nat) ==> r == Ok::<
            u32,
            ErrorCode,
        >(
            discount_asset_weight_spec(
                size_in_amm_reserve_precision as nat,
                imf_factor as nat,
                asset_weight as nat,
            ) as u32,
        ),
        imf_factor > 0 && !curve_input_ok(size_in_amm_reserve_precision as nat) ==> r == Err::<
            u32,
            ErrorCode,
        >(ErrorCode::MathError),
        r matches Ok(v) ==> v <= asset_weight,
{
    if imf_factor == 0 {
        return Ok(asset_weight);
    }
    let scaled_size = match safe_mul(size_in_amm_reserve_precision, 10) {
        Ok(v) => v,
        Err(e) => {
            return Err(e);
        },
    };
    let sqrt_arg = match safe_add(scaled_size, 1) {
        Ok(v) => v,
        Err(e) => {
            return Err(e);
        },
    };
    let size_sqrt = isqrt(sqrt_arg);
    let imf_128 = imf_factor as u128;
    proof {
        assert(size_sqrt <= 0xffff_ffff_ffff_ffffu128) by (nonlinear_arith)
            requires
                size_sqrt * size_sqrt <= u128::MAX,
        ;
        assert(size_sqrt * imf_128 <= u128::MAX) by (nonlinear_arith)
            requires
                size_sqrt <= 0xffff_ffff_ffff_ffffu128,
                imf_128 <= 0xffff_ffffu128,
        ;
        lemma_div_is_ordered((size_sqrt * imf_128) as int, u128::MAX as int, 100_000);
    }
    let imf_term = (size_sqrt * imf_128) / 100_000;
    let denominator = SPOT_IMF_PRECISION + imf_term;
    let imf_numerator = SPOT_IMF_PRECISION + SPOT_IMF_PRECISION / 10;
    proof {
        assert(imf_numerator * SPOT_WEIGHT_PRECISION_U128 == 11_000_000_000) by (nonlinear_arith)
            requires
                imf_numerator == 1_100_000u128,
                SPOT_WEIGHT_PRECISION_U128 == 10_000u128,
        ;
        lemma_div_is_ordered_by_denominator(
            11_000_000_000,
            SPOT_IMF_PRECISION as int,
            denominator as int,
        );
    }
    let numerator = imf_numerator * SPOT_WEIGHT_PRECISION_U128;
    let size_discounted = numerator / denominator;
    let size_discounted_u32 = size_discounted as u32;
    if asset_weight <= size_discounted_u32 {
        Ok(asset_weight)
    } else {
        Ok(size_discounted_u32)
    }
}

/// The liability weight after the size premium. At zero steepness the base
/// weight is returned unchanged; otherwise the result is never below the
/// base. Fails with an arithmetic error when the square-root argument
/// overflows, when `precision` yields no positive denominator, or when the
/// candidate weight exceeds a `u32`.
pub fn calculate_size_premium_liability_weight(
    size_in_amm_reserve_precision: u128,
    imf_factor: u32,
    liability_weight: u32,
    precision: u128,
) -> (r: DriftResult<u32>)
    ensures
        imf_factor == 0 ==> r == Ok::<u32, ErrorCode>(liability_weight),
        imf_factor > 0 && premium_input_ok(
            size_in_amm_reserve_precision as nat,
            imf_factor as nat,
            liability_weight as nat,
            precision as nat,
        ) ==> r == Ok::<u32, ErrorCode>(
            premium_liability_weight_spec(
                size_in_amm_reserve_precision as nat,
                imf_factor as nat,
                liability_weight as nat,
                precision as nat,
            ) as u32,
        ),
        imf_factor > 0 && !premium_input_ok(
            size_in_amm_reserve_precision as nat,
            imf_factor as nat,
            liability_weight as nat,
            precision as nat,
        ) ==> r == Err::<u32, ErrorCode>(ErrorCode::MathError),
        r matches Ok(v) ==> v >= liability_weight,
{
    if imf_factor == 0 {
        return Ok(liability_weight);
    }
    let scaled_size = match safe_mul(size_in_amm_reserve_precision, 10) {
        Ok(v) => v,
        Err(e) => {
            return Err(e);
        },
    };
    let sqrt_arg = match safe_add(scaled_size, 1) {
        Ok(v) => v,
        Err(e) => {
            return Err(e);
        },
    };
    let size_sqrt = isqrt(sqrt_arg);
    let imf_128 = imf_factor as u128;
    proof {
        assert(100_000 * SPOT_IMF_PRECISION == 100_000_000_000u128) by (nonlinear_arith)
            requires
                SPOT_IMF_PRECISION == 1_000_000u128,
        ;
    }
    let denominator_scale = match safe_div(100_000 * SPOT_IMF_PRECISION, precision) {
        Ok(v) => v,
        Err(e) => {
            return Err(e);
        },
    };
    proof {
        assert(size_sqrt <= 0xffff_ffff_ffff_ffffu128) by (nonlinear_arith)
            requires
                size_sqrt * size_sqrt <= u128::MAX,
        ;
        assert(size_sqrt * imf_128 + 0xffff_ffffu128 <= u128::MAX) by (nonlinear_arith)
            requires
                size_sqrt <= 0xffff_ffff_ffff_ffffu128,
                imf_128 <= 0xffff_ffffu128,
        ;
    }
    let imf_term = match safe_div(size_sqrt * imf_128, denominator_scale) {
        Ok(v) => v,
        Err(e) => {
            return Err(e);
        },
    };
    let liability_weight_numerator = liability_weight - liability_weight / 5;
    proof {
        lemma_div_nonincreasing((size_sqrt * imf_128) as int, denominator_scale as int);
    }
    let size_premium = (liability_weight_numerator as u128) + imf_term;
    if size_premium > 0xffff_ffffu128 {
        return Err(ErrorCode::MathError);
    }
    let size_premium_u32 = size_premium as u32;
    if size_premium_u32 >= liability_weight {
        Ok(size_premium_u32)
    } else {
        Ok(liability_weight)
    }
}

/// Whether rescaling a native-unit size into reserve precision stays within
/// `u128`.
pub open spec fn rescale_ok(size: nat, decimals: nat) -> bool {
    &&& pow10(decimals) <= u128::MAX
    &&& (pow10(decimals) > AMM_RESERVE_PRECISION || size * (AMM_RESERVE_PRECISION as nat)
        <= u128::MAX)
}

/// A native-unit size expressed in the canonical reserve precision: divided
/// down when the token's precision exceeds the canonical one, scaled up
/// otherwise.
pub open spec fn size_in_reserve_precision(size: nat, decimals: nat) -> nat {
    if pow10(decimals) > AMM_RESERVE_PRECISION {
        size / (pow10(decimals) / (AMM_RESERVE_PRECISION as nat))
    } else {
        (size * (AMM_RESERVE_PRECISION as nat)) / pow10(decimals)
    }
}

/// Rescales a size in the token's native `10^decimals` units into the
/// canonical reserve precision the curves are calibrated in. Fails with an
/// arithmetic error on overflow.
pub fn scale_to_reserve_precision(size: u128, decimals: u32) -> (r: DriftResult<u128>)
    ensures
        rescale_ok(size as nat, decimals as nat) ==> size_in_reserve_precision(
            size as nat,
            decimals as nat,
        ) <= u128::MAX,
        rescale_ok(size as nat, decimals as nat) ==> r == Ok::<u128, ErrorCode>(
            size_in_reserve_precision(size as nat, decimals as nat) as u128,
        ),
        !rescale_ok(size as nat, decimals as nat) ==> r == Err::<u128, ErrorCode>(
            ErrorCode::MathError,
        ),
{
    let size_precision = match pow10_u128(decimals) {
        Ok(v) => v,
        Err(e) => {
            return Err(e);
        },
    };
    if size_precision > AMM_RESERVE_PRECISION {
        let divisor = size_precision / AMM_RESERVE_PRECISION;
        Ok(size / divisor)
    } else {
        let scaled = match safe_mul(size, AMM_RESERVE_PRECISION) {
            Ok(v) => v,
            Err(e) => {
                return Err(e);
            },
        };
        proof {
            lemma_pow10_pos(decimals as nat);
        }
        Ok(scaled / size_precision)
    }
}

/// Rescaling into reserve precision preserves the order of sizes, so the
/// curve monotonicity lemmas apply to sizes in native token units as well.
pub proof fn lemma_size_in_reserve_precision_monotonic(size1: nat, size2: nat, decimals: nat)
    requires
        size1 <= size2,
    ensures
        size_in_reserve_precision(size1, decimals) <= size_in_reserve_precision(size2, decimals),
{
    lemma_pow10_pos(decimals);
    if pow10(decimals) > (AMM_RESERVE_PRECISION as nat) {
        lemma_div_is_ordered(
            AMM_RESERVE_PRECISION as int,
            pow10(decimals) as int,
            AMM_RESERVE_PRECISION as int,
        );
        lemma_div_is_ordered(
            size1 as int,
            size2 as int,
            (pow10(decimals) / (AMM_RESERVE_PRECISION as nat)) as int,
        );
    } else {
        assert(size1 * (AMM_RESERVE_PRECISION as nat) <= size2 * (AMM_RESERVE_PRECISION as nat))
            by (nonlinear_arith)
            requires
                size1 <= size2,
        ;
        lemma_div_is_ordered(
            (size1 * (AMM_RESERVE_PRECISION as nat)) as int,
            (size2 * (AMM_RESERVE_PRECISION as nat)) as int,
            pow10(decimals) as int,
        );
    }
}

/// For fixed positive steepness, the asset-weight discount is monotonic
/// non-increasing in size: a larger position never receives a larger asset
/// weight.
pub proof fn lemma_size_discount_monotonic_in_size(
    size1: nat,
    size2: nat,
    imf_factor: nat,
    asset_weight: nat,
)
    requires
        size1 <= size2,
        imf_factor > 0,
    ensures
        discount_asset_weight_spec(size2, imf_factor, asset_weight) <= discount_asset_weight_spec(
            size1,
            imf_factor,
            asset_weight,
        ),
{
    lemma_isqrt_monotonic(10 * size1 + 1, 10 * size2 + 1);
    let root1 = size_sqrt_of(size1);
    let root2 = size_sqrt_of(size2);
    assert(root1 * imf_factor <= root2 * imf_factor) by (nonlinear_arith)
        requires
            root1 <= root2,
    ;
    lemma_div_is_ordered((root1 * imf_factor) as int, (root2 * imf_factor) as int, 100_000);
    lemma_div_is_ordered_by_denominator(
        (((SPOT_IMF_PRECISION + SPOT_IMF_PRECISION / 10) * SPOT_WEIGHT_PRECISION_U128) as nat)
            as int,
        discount_denominator(size1, imf_factor) as int,
        discount_denominator(size2, imf_factor) as int,
    );
}

/// At zero steepness the asset-weight discount is a no-op.
pub proof fn lemma_size_discount_zero_imf(size: nat, asset_weight: nat)
    ensures
        discount_asset_weight_spec(size, 0, asset_weight) == asset_weight,
{
}

/// At zero size the asset-weight discount is a no-op for every base weight
/// within the weight precision and every representable steepness.
pub proof fn lemma_size_discount_zero_size(imf_factor: nat, asset_weight: nat)
    requires
        imf_factor <= u32::MAX,
        asset_weight <= SPOT_WEIGHT_PRECISION_U128,
    ensures
        discount_asset_weight_spec(0, imf_factor, asset_weight) == asset_weight,
{
    assert((1 as nat) * (1 as nat) <= 1 && (1 as nat) < (2 as nat) * (2 as nat)) by (
    nonlinear_arith);
    lemma_isqrt_unique(1, 1);
    assert(size_sqrt_of(0) == 1);
    assert(size_sqrt_of(0) * imf_factor == imf_factor) by (nonlinear_arith)
        requires
            size_sqrt_of(0) == 1,
    ;
    assert(imf_factor / 100_000 <= 42_949) by {
        lemma_div_is_ordered(imf_factor as int, u32::MAX as int, 100_000);
    }
    assert(discount_denominator(0, imf_factor) <= 1_042_949);
    assert(((SPOT_IMF_PRECISION + SPOT_IMF_PRECISION / 10) * SPOT_WEIGHT_PRECISION_U128)
        == 11_000_000_000) by (nonlinear_arith)
        requires
            SPOT_IMF_PRECISION == 1_000_000u128,
            SPOT_WEIGHT_PRECISION_U128 == 10_000u128,
    ;
    lemma_div_is_ordered_by_denominator(
        11_000_000_000,
        discount_denominator(0, imf_factor) as int,
        1_042_949,
    );
    assert(size_discounted_weight(0, imf_factor) >= 11_000_000_000int / 1_042_949);
}

/// The liability-weight premium is monotonic non-decreasing in size: a
/// larger position is never charged a smaller liability weight.
pub proof fn lemma_size_premium_monotonic_in_size(
    size1: nat,
    size2: nat,
    imf_factor: nat,
    liability_weight: nat,
    precision: nat,
)
    requires
        size1 <= size2,
        premium_denominator_scale(precision) >= 1,
    ensures
        premium_liability_weight_spec(size1, imf_factor, liability_weight, precision)
            <= premium_liability_weight_spec(size2, imf_factor, liability_weight, precision),
{
    lemma_isqrt_monotonic(10 * size1 + 1, 10 * size2 + 1);
    let root1 = size_sqrt_of(size1);
    let root2 = size_sqrt_of(size2);
    assert(root1 * imf_factor <= root2 * imf_factor) by (nonlinear_arith)
        requires
            root1 <= root2,
    ;
    lemma_div_is_ordered(
        (root1 * imf_factor) as int,
        (root2 * imf_factor) as int,
        premium_denominator_scale(precision) as int,
    );
}

/// The premium-adjusted liability weight is never below the flat base
/// weight, regardless of size, steepness or rounding.
pub proof fn lemma_size_premium_at_least_base(
    size: nat,
    imf_factor: nat,
    liability_weight: nat,
    precision: nat,
)
    ensures
        premium_liability_weight_spec(size, imf_factor, liability_weight, precision)
            >= liability_weight,
{
}

/// At zero steepness the liability-weight premium is a no-op.
pub proof fn lemma_size_premium_zero_imf(size: nat, liability_weight: nat, precision: nat)
    ensures
        premium_liability_weight_spec(size, 0, liability_weight, precision) == liability_weight,
{
}

} // verus!
