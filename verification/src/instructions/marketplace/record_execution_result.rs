use crate::address::Address;
use crate::state::strategy::FULL_SUCCESS_RATE;
use crate::state::{Strategy, StrategyExecution, UserStrategy};
use vstd::prelude::*;

verus! {

/// The accounts the recording of an execution's outcome works on.
#[derive(Debug, PartialEq, Eq)]
pub struct RecordExecutionResult {
    pub strategy: Strategy,
    pub user_strategy: UserStrategy,
    pub execution: StrategyExecution,
    /// The executor, who signs.
    pub executor: Address,
}

/// Successful executions among the first `executions - 1`, as the stored rate tells it:
/// the rate applied to their number, rounded down.
pub open spec fn earlier_successes(success_rate: u16, executions: u64) -> int {
    (success_rate * (executions - 1)) / 10000
}

/// The success rate once the latest of `executions` executions is counted in: the
/// successes, the latest among them if it succeeded, over all executions, in basis
/// points and rounded down.
pub open spec fn updated_success_rate(success_rate: u16, executions: u64, success: bool) -> int {
    let successes = earlier_successes(success_rate, executions) + if success {
        1int
    } else {
        0int
    };
    (successes * 10000) / (executions as int)
}

/// A success rate of at most one hundred percent stays so when an outcome is counted in.
pub proof fn lemma_success_rate_bounded(success_rate: u16, executions: u64, success: bool)
    requires
        success_rate <= FULL_SUCCESS_RATE,
        executions >= 1,
    ensures
        0 <= earlier_successes(success_rate, executions) <= executions - 1,
        0 <= updated_success_rate(success_rate, executions, success) <= FULL_SUCCESS_RATE,
{
    let n = executions as int;
    let prior = success_rate * (n - 1);
    assert(0 <= prior <= 10000 * (n - 1)) by (nonlinear_arith)
        requires
            0 <= success_rate <= 10000,
            n >= 1,
            prior == success_rate * (n - 1),
    ;
    crate::state::share_laws::lemma_floor_bounds(prior, 10000);
    crate::state::share_laws::lemma_floor_at_most(prior, 10000, n - 1);
    let successes = earlier_successes(success_rate, executions) + if success {
        1int
    } else {
        0int
    };
    assert(0 <= successes <= n);
    assert(0 <= successes * 10000 <= 10000 * n) by (nonlinear_arith)
        requires
            0 <= successes <= n,
    ;
    crate::state::share_laws::lemma_floor_bounds(successes * 10000, n);
    crate::state::share_laws::lemma_floor_at_most(successes * 10000, n, 10000);
}

/// Fills in the outcome of the latest execution and counts it into the statistics: the
/// profit is added to the strategy's and to the executor's totals, and the success rate
/// is brought up to date.
///
/// The strategy must have counted the execution, and the totals must have room for the
/// profit.
pub fn record_execution_result(
    ctx: &mut RecordExecutionResult,
    output_amount: u64,
    profit: i64,
    success: bool,
)
    requires
        old(ctx).strategy.success_rate <= FULL_SUCCESS_RATE,
        old(ctx).strategy.total_executions >= 1,
        i64::MIN <= old(ctx).strategy.total_profit + profit <= i64::MAX,
        i64::MIN <= old(ctx).user_strategy.total_profit + profit <= i64::MAX,
    ensures
        *final(ctx) == (RecordExecutionResult {
            strategy: Strategy {
                total_profit: (old(ctx).strategy.total_profit + profit) as i64,
                success_rate: updated_success_rate(
                    old(ctx).strategy.success_rate,
                    old(ctx).strategy.total_executions,
                    success,
                ) as u16,
                ..old(ctx).strategy
            },
            user_strategy: UserStrategy {
                total_profit: (old(ctx).user_strategy.total_profit + profit) as i64,
                ..old(ctx).user_strategy
            },
            execution: StrategyExecution { output_amount, profit, success, ..old(ctx).execution },
            ..*old(ctx)
        }),
        final(ctx).strategy.success_rate <= FULL_SUCCESS_RATE,
{
    ctx.execution.output_amount = output_amount;
    ctx.execution.profit = profit;
    ctx.execution.success = success;
    ctx.strategy.total_profit = ctx.strategy.total_profit + profit;
    ctx.user_strategy.total_profit = ctx.user_strategy.total_profit + profit;
    let executions: u64 = ctx.strategy.total_executions;
    let rate: u64 = ctx.strategy.success_rate as u64;
    proof {
        lemma_success_rate_bounded(ctx.strategy.success_rate, executions, success);
        assert(rate * (executions - 1) <= 10000 * 0xFFFF_FFFF_FFFF_FFFF) by (nonlinear_arith)
            requires
                0 <= rate <= 10000,
                1 <= executions <= 0xFFFF_FFFF_FFFF_FFFF,
        ;
    }
    let total_successes: u128 = ((rate as u128) * ((executions - 1) as u128)) / 10000;
    let counted: u128 = if success {
        total_successes + 1
    } else {
        total_successes
    };
    assert(counted * 10000 <= 10000 * 0xFFFF_FFFF_FFFF_FFFF) by (nonlinear_arith)
        requires
            0 <= counted <= executions,
            executions <= 0xFFFF_FFFF_FFFF_FFFF,
    ;
    let updated: u128 = (counted * 10000) / (executions as u128);
    ctx.strategy.success_rate = updated as u16;
}

} // verus!
