//! Overflow-checked fixed-point arithmetic primitives.
//!
//! Every add, subtract, multiply and divide over balance and weight magnitudes
//! detects overflow, underflow and division errors and fails with
//! [`ErrorCode::MathError`](crate::error::ErrorCode) instead of wrapping.
//! Division truncates toward zero, which is deliberate and conservative for
//! risk calculations: it never overstates available credit.

use vstd::prelude::*;

use crate::error::{DriftResult, ErrorCode};

verus! {

/// Checked `u128` addition.
pub fn safe_add(a: u128, b: u128) -> (r: DriftResult<u128>)
    ensures
        a + b <= u128::MAX ==> r == Ok::<u128, ErrorCode>((a + b) as u128),
        a + b > u128::MAX ==> r == Err::<u128, ErrorCode>(ErrorCode::MathError),
{
    match a.checked_add(b) {
        Some(v) => Ok(v),
        None => Err(ErrorCode::MathError),
    }
}

/// Checked `u128` subtraction.
pub fn safe_sub(a: u128, b: u128) -> (r: DriftResult<u128>)
    ensures
        b <= a ==> r == Ok::<u128, ErrorCode>((a - b) as u128),
        b > a ==> r == Err::<u128, ErrorCode>(ErrorCode::MathError),
{
    match a.checked_sub(b) {
        Some(v) => Ok(v),
        None => Err(ErrorCode::MathError),
    }
}

/// Checked `u128` multiplication.
pub fn safe_mul(a: u128, b: u128) -> (r: DriftResult<u128>)
    ensures
        a * b <= u128::MAX ==> r == Ok::<u128, ErrorCode>((a * b) as u128),
        a * b > u128::MAX ==> r == Err::<u128, ErrorCode>(ErrorCode::MathError),
{
    match a.checked_mul(b) {
        Some(v) => Ok(v),
        None => Err(ErrorCode::MathError),
    }
}

/// Checked `u128` division, truncating toward zero.
pub fn safe_div(a: u128, b: u128) -> (r: DriftResult<u128>)
    ensures
        b > 0 ==> r == Ok::<u128, ErrorCode>((a / b) as u128),
        b == 0 ==> r == Err::<u128, ErrorCode>(ErrorCode::MathError),
{
    match a.checked_div(b) {
        Some(v) => Ok(v),
        None => Err(ErrorCode::MathError),
    }
}

/// Checked `u32` subtraction, for weight and margin fractions.
pub fn safe_sub_u32(a: u32, b: u32) -> (r: DriftResult<u32>)
    ensures
        b <= a ==> r == Ok::<u32, ErrorCode>((a - b) as u32),
        b > a ==> r == Err::<u32, ErrorCode>(ErrorCode::MathError),
{
    match a.checked_sub(b) {
        Some(v) => Ok(v),
        None => Err(ErrorCode::MathError),
    }
}

/// `10^e`, the mathematical value an exponent field denotes.
pub open spec fn pow10(e: nat) -> nat
    decreases e,
{
    if e == 0 {
        1
    } else {
        10 * pow10((e - 1) as nat)
    }
}

/// Powers of ten are positive.
pub proof fn lemma_pow10_pos(e: nat)
    ensures
        pow10(e) >= 1,
    decreases e,
{
    if e > 0 {
        lemma_pow10_pos((e - 1) as nat);
    }
}

/// Powers of ten are non-decreasing in the exponent.
pub proof fn lemma_pow10_increases(a: nat, b: nat)
    requires
        a <= b,
    ensures
        pow10(a) <= pow10(b),
    decreases b,
{
    if a < b {
        lemma_pow10_increases(a, (b - 1) as nat);
        lemma_pow10_pos((b - 1) as nat);
    }
}

/// `10^e` as a `u64` token-unit scale; fails on magnitudes no `u64` holds.
pub fn pow10_u64(e: u32) -> (r: DriftResult<u64>)
    ensures
        pow10(e as nat) <= u64::MAX ==> r == Ok::<u64, ErrorCode>(pow10(e as nat) as u64),
        pow10(e as nat) > u64::MAX ==> r == Err::<u64, ErrorCode>(ErrorCode::MathError),
{
    let mut acc: u64 = 1;
    let mut i: u32 = 0;
    while i < e
        invariant
            i <= e,
            acc == pow10(i as nat),
        decreases e - i,
    {
        proof {
            lemma_pow10_increases((i + 1) as nat, e as nat);
        }
        acc = match acc.checked_mul(10) {
            Some(v) => v,
            None => {
                return Err(ErrorCode::MathError);
            },
        };
        i = i + 1;
    }
    Ok(acc)
}

/// `10^e` as a `u128` magnitude; fails on magnitudes no `u128` holds.
pub fn pow10_u128(e: u32) -> (r: DriftResult<u128>)
    ensures
        pow10(e as nat) <= u128::MAX ==> r == Ok::<u128, ErrorCode>(pow10(e as nat) as u128),
        pow10(e as nat) > u128::MAX ==> r == Err::<u128, ErrorCode>(ErrorCode::MathError),
{
    let mut acc: u128 = 1;
    let mut i: u32 = 0;
    while i < e
        invariant
            i <= e,
            acc == pow10(i as nat),
        decreases e - i,
    {
        proof {
            lemma_pow10_increases((i + 1) as nat, e as nat);
        }
        acc = match acc.checked_mul(10) {
            Some(v) => v,
            None => {
                return Err(ErrorCode::MathError);
            },
        };
        i = i + 1;
    }
    Ok(acc)
}

} // verus!
