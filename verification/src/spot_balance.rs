//! Balance conversion: normalized pool balances to concrete token amounts.
//!
//! A normalized balance, multiplied by the side-appropriate cumulative
//! interest index and divided by the interest precision constant, yields the
//! concrete token amount it currently represents. The index only grows, so
//! deposit token amounts never shrink from interest alone.

use vstd::arithmetic::div_mod::lemma_div_is_ordered;
use vstd::prelude::*;

use crate::constants::SPOT_CUMULATIVE_INTEREST_PRECISION;
use crate::error::{DriftResult, ErrorCode};
use crate::safe_math::{safe_div, safe_mul};
use crate::spot_market::{SpotBalanceType, SpotMarket};

verus! {

/// The cumulative interest index a balance of the given side accrues by.
pub open spec fn interest_of(market: SpotMarket, balance_type: SpotBalanceType) -> u128 {
    match balance_type {
        SpotBalanceType::Deposit => market.cumulative_deposit_interest,
        SpotBalanceType::Borrow => market.cumulative_borrow_interest,
    }
}

/// The token amount a normalized balance represents under a cumulative
/// interest index, truncating toward zero.
pub open spec fn token_amount_spec(balance: nat, cumulative_interest: nat) -> nat {
    (balance * cumulative_interest) / (SPOT_CUMULATIVE_INTEREST_PRECISION as nat)
}

/// Whether the conversion stays within a `u128` magnitude.
pub open spec fn token_amount_ok(balance: nat, cumulative_interest: nat) -> bool {
    balance * cumulative_interest <= u128::MAX
}

/// Converts a normalized balance into the concrete token amount it
/// represents on the given side of the market. Fails with an arithmetic
/// error on overflow.
pub fn get_token_amount(balance: u128, spot_market: &SpotMarket, balance_type: &SpotBalanceType)
    -> (r: DriftResult<u128>)
    ensures
        token_amount_ok(balance as nat, interest_of(*spot_market, *balance_type) as nat) ==> r
            == Ok::<u128, ErrorCode>(
            token_amount_spec(balance as nat, interest_of(*spot_market, *balance_type) as nat)
                as u128,
        ),
        !token_amount_ok(balance as nat, interest_of(*spot_market, *balance_type) as nat) ==> r
            == Err::<u128, ErrorCode>(ErrorCode::MathError),
{
    let cumulative_interest = match balance_type {
        SpotBalanceType::Deposit => spot_market.cumulative_deposit_interest,
        SpotBalanceType::Borrow => spot_market.cumulative_borrow_interest,
    };
    let scaled_amount = match safe_mul(balance, cumulative_interest) {
        Ok(v) => v,
        Err(e) => {
            return Err(e);
        },
    };
    safe_div(scaled_amount, SPOT_CUMULATIVE_INTEREST_PRECISION)
}

/// Holding the balance fixed, a token amount is monotonic non-decreasing in
/// its cumulative interest index.
pub proof fn lemma_token_amount_monotonic_in_interest(
    balance: nat,
    interest1: nat,
    interest2: nat,
)
    requires
        interest1 <= interest2,
    ensures
        token_amount_spec(balance, interest1) <= token_amount_spec(balance, interest2),
{
    assert(balance * interest1 <= balance * interest2) by (nonlinear_arith)
        requires
            interest1 <= interest2,
    ;
    lemma_div_is_ordered(
        (balance * interest1) as int,
        (balance * interest2) as int,
        SPOT_CUMULATIVE_INTEREST_PRECISION as int,
    );
}

} // verus!
