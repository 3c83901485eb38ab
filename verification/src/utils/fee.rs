use crate::error::JupiterSwapError;
use vstd::prelude::*;

verus! {

/// One hundred percent, in basis points.
pub const BPS_DENOMINATOR: u16 = 10000;

/// The fee on `amount` at `rate_bps` basis points: `amount * rate_bps / 10000`, rounded up.
pub open spec fn fee_of(amount: int, rate_bps: int) -> int {
    (amount * rate_bps + 9999) / 10000
}

/// What `calculate_fee` returns: a rate above one hundred percent is refused, any other
/// rate yields the rounded-up fee.
pub open spec fn fee_result(amount: u64, fee_rate_bps: u16) -> Result<u64, JupiterSwapError> {
    if fee_rate_bps > BPS_DENOMINATOR {
        Err(JupiterSwapError::InvalidFeeRate)
    } else {
        Ok(fee_of(amount as int, fee_rate_bps as int) as u64)
    }
}

/// The fee is the least integer that is no smaller than `amount * rate_bps / 10000`.
pub proof fn lemma_fee_is_ceiling(amount: int, rate_bps: int)
    requires
        0 <= amount,
        0 <= rate_bps,
    ensures
        fee_of(amount, rate_bps) * 10000 >= amount * rate_bps,
        (fee_of(amount, rate_bps) - 1) * 10000 < amount * rate_bps,
        fee_of(amount, rate_bps) >= (amount * rate_bps) / 10000,
        fee_of(amount, rate_bps) <= (amount * rate_bps) / 10000 + 1,
        (amount * rate_bps) % 10000 == 0 ==> fee_of(amount, rate_bps) == (amount * rate_bps) / 10000,
        (amount * rate_bps) % 10000 != 0 ==> fee_of(amount, rate_bps) == (amount * rate_bps) / 10000 + 1,
{
    let n = amount * rate_bps;
    assert(0 <= n) by (nonlinear_arith)
        requires
            0 <= amount,
            0 <= rate_bps,
            n == amount * rate_bps,
    ;
}

/// At a rate of at most one hundred percent the fee never exceeds the amount.
pub proof fn lemma_fee_at_most_amount(amount: int, rate_bps: int)
    requires
        0 <= amount,
        0 <= rate_bps <= 10000,
    ensures
        0 <= fee_of(amount, rate_bps) <= amount,
{
    let n = amount * rate_bps;
    assert(0 <= n <= amount * 10000) by (nonlinear_arith)
        requires
            0 <= amount,
            0 <= rate_bps <= 10000,
            n == amount * rate_bps,
    ;
}

/// A zero amount or a zero rate owes no fee.
pub proof fn lemma_fee_zero(amount: int, rate_bps: int)
    ensures
        fee_of(amount, 0) == 0,
        fee_of(0, rate_bps) == 0,
{
    assert(amount * 0 == 0) by (nonlinear_arith);
    assert(0 * rate_bps == 0) by (nonlinear_arith);
}

/// A larger amount never owes a smaller fee at the same rate.
pub proof fn lemma_fee_monotonic_in_amount(a1: int, a2: int, rate_bps: int)
    requires
        0 <= a1 <= a2,
        0 <= rate_bps,
    ensures
        fee_of(a1, rate_bps) <= fee_of(a2, rate_bps),
{
    assert(a1 * rate_bps <= a2 * rate_bps) by (nonlinear_arith)
        requires
            0 <= a1 <= a2,
            0 <= rate_bps,
    ;
}

/// A higher rate never owes a smaller fee on the same amount.
pub proof fn lemma_fee_monotonic_in_rate(amount: int, r1: int, r2: int)
    requires
        0 <= amount,
        0 <= r1 <= r2,
    ensures
        fee_of(amount, r1) <= fee_of(amount, r2),
{
    assert(amount * r1 <= amount * r2) by (nonlinear_arith)
        requires
            0 <= amount,
            0 <= r1 <= r2,
    ;
}

/// Computes the protocol fee on `amount` at `fee_rate_bps` basis points, rounded up so
/// that truncation never loses a fee.
pub fn calculate_fee(amount: u64, fee_rate_bps: u16) -> (r: Result<u64, JupiterSwapError>)
    ensures
        r == fee_result(amount, fee_rate_bps),
        fee_rate_bps > BPS_DENOMINATOR <==> r == Err::<u64, JupiterSwapError>(
            JupiterSwapError::InvalidFeeRate,
        ),
        fee_rate_bps <= BPS_DENOMINATOR <==> r is Ok,
        r matches Ok(fee) ==> {
            &&& fee == fee_of(amount as int, fee_rate_bps as int)
            &&& fee <= amount
            &&& fee >= (amount * fee_rate_bps) / 10000
            &&& (amount == 0 || fee_rate_bps == 0) ==> fee == 0
        },
{
    if fee_rate_bps > 10000 {
        return Err(JupiterSwapError::InvalidFeeRate);
    }
    proof {
        lemma_fee_at_most_amount(amount as int, fee_rate_bps as int);
        lemma_fee_is_ceiling(amount as int, fee_rate_bps as int);
        lemma_fee_zero(amount as int, fee_rate_bps as int);
    }
    if fee_rate_bps == 0 || amount == 0 {
        return Ok(0);
    }
    assert(amount * fee_rate_bps <= 0xFFFF_FFFF_FFFF_FFFF * 10000) by (nonlinear_arith)
        requires
            amount <= 0xFFFF_FFFF_FFFF_FFFF,
            fee_rate_bps <= 10000,
    ;
    let numerator: u128 = (amount as u128) * (fee_rate_bps as u128);
    let fee: u128 = (numerator + 9999) / 10000;
    Ok(fee as u64)
}

} // verus!
