use crate::error::VaultError;
use crate::state::StrategyParameters;
use vstd::prelude::*;

verus! {

/// The output a strategy aims at for `input_used`: the input grown by the least profit
/// in basis points, rounded down.
pub open spec fn expected_min_output(input_used: u64, min_profit_bps: u16) -> int {
    (input_used * (10000 + min_profit_bps)) / 10000
}

/// What `calculate_profit` returns: the output received less the output aimed at, as
/// long as both are amounts a signed sixty-four-bit profit can be measured against; an
/// amount beyond that range is refused, never wrapped.
pub open spec fn profit_result(input_used: u64, output_received: u64, min_profit_bps: u16) -> Result<
    i64,
    VaultError,
> {
    if expected_min_output(input_used, min_profit_bps) > i64::MAX || output_received
        > i64::MAX {
        Err(VaultError::MathOverflow)
    } else {
        Ok((output_received - expected_min_output(input_used, min_profit_bps)) as i64)
    }
}

/// A profit that is reported is the exact difference between the output received and
/// the output aimed at, and it is not negative exactly when the target was reached.
pub proof fn lemma_profit_is_exact(input_used: u64, output_received: u64, min_profit_bps: u16)
    ensures
        profit_result(input_used, output_received, min_profit_bps) matches Ok(profit) ==> {
            &&& profit == output_received - expected_min_output(input_used, min_profit_bps)
            &&& profit >= 0 <==> output_received >= expected_min_output(
                input_used,
                min_profit_bps,
            )
        },
        0 <= expected_min_output(input_used, min_profit_bps),
{
    assert(0 <= input_used * (10000 + min_profit_bps)) by (nonlinear_arith)
        requires
            0 <= input_used,
            0 <= min_profit_bps,
    ;
    vstd::arithmetic::div_mod::lemma_div_pos_is_pos(input_used * (10000 + min_profit_bps), 10000);
}

/// The profit of an execution against the strategy's own target: the output received
/// less the input grown by the least profit the strategy aims at.
pub fn calculate_profit(input_used: u64, output_received: u64, parameters: &StrategyParameters) -> (r:
    Result<i64, VaultError>)
    ensures
        r == profit_result(input_used, output_received, parameters.min_profit_bps),
{
    let factor: u128 = 10000 + parameters.min_profit_bps as u128;
    assert(input_used * factor <= 0xFFFF_FFFF_FFFF_FFFF * 75535) by (nonlinear_arith)
        requires
            0 <= input_used <= 0xFFFF_FFFF_FFFF_FFFF,
            0 <= factor <= 75535,
    ;
    let expected_min_output: u128 = ((input_used as u128) * factor) / 10000;
    if expected_min_output > i64::MAX as u128 {
        return Err(VaultError::MathOverflow);
    }
    if output_received > i64::MAX as u64 {
        return Err(VaultError::MathOverflow);
    }
    let expected: i64 = expected_min_output as i64;
    let received: i64 = output_received as i64;
    Ok(received - expected)
}

} // verus!
