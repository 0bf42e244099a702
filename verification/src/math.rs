use vstd::prelude::*;
use crate::constants::BPS_DENOMINATOR;
use crate::errors::BillingError;

verus! {

/// `x` is a value of `u64`.
pub open spec fn fits_u64(x: int) -> bool {
    0 <= x <= u64::MAX
}

/// `x` is a value of `i64`.
pub open spec fn fits_i64(x: int) -> bool {
    i64::MIN <= x <= i64::MAX
}

/// The platform's share of `amount` at `bps` basis points, rounded down.
pub open spec fn spec_platform_fee(amount: int, bps: int) -> int {
    amount * bps / (BPS_DENOMINATOR as int)
}

/// The platform's share of a payment: `amount * bps / 10000`, rounded down,
/// or `MathOverflow` where `amount * bps` does not fit in a `u64`.
pub fn platform_fee(amount: u64, bps: u16) -> (r: Result<u64, BillingError>)
    ensures
        fits_u64(amount * bps) ==> r == Ok::<u64, BillingError>(
            spec_platform_fee(amount as int, bps as int) as u64,
        ),
        !fits_u64(amount * bps) ==> r == Err::<u64, BillingError>(BillingError::MathOverflow),
{
    match amount.checked_mul(bps as u64) {
        Some(product) => Ok(product / BPS_DENOMINATOR),
        None => Err(BillingError::MathOverflow),
    }
}

/// The fee never exceeds the amount it is taken from while `bps` is at most 10000.
pub proof fn lemma_fee_within_amount(amount: int, bps: int)
    requires
        0 <= amount,
        0 <= bps <= BPS_DENOMINATOR,
    ensures
        0 <= spec_platform_fee(amount, bps) <= amount,
{
    assert(0 <= amount * bps <= amount * 10000) by (nonlinear_arith)
        requires
            0 <= amount,
            0 <= bps <= 10000,
    ;
    assert(0 <= amount * bps / 10000 <= amount) by (nonlinear_arith)
        requires
            0 <= amount * bps <= amount * 10000,
    ;
}

} // verus!
