use crate::address::Address;
use crate::error::StrategyError;
use crate::state::strategy::{bump_counter, bumped};
use crate::state::{Strategy, StrategyExecution, UserStrategy};
use vstd::prelude::*;

verus! {

/// The accounts the execution of a bought strategy works on.
#[derive(Debug, PartialEq, Eq)]
pub struct ExecuteStrategy {
    /// Address of the strategy executed.
    pub strategy_key: Address,
    pub strategy: Strategy,
    /// The executor's copy of the strategy.
    pub user_strategy: UserStrategy,
    /// The executor, who signs.
    pub executor: Address,
    /// The record to fill in; its slot is the strategy's execution count.
    pub execution: StrategyExecution,
    /// Nonce of that record's derived address.
    pub execution_bump: u8,
}

/// Opens the record of one execution of a bought strategy and counts it, for the
/// strategy and for the executor. The outcome is filled in later. Only the owner of the
/// copy may execute it; anyone else is refused and nothing changes.
pub fn execute_strategy(ctx: &mut ExecuteStrategy, input_amount: u64, timestamp: i64) -> (r:
    Result<(), StrategyError>)
    ensures
        r is Ok <==> old(ctx).user_strategy.owner == old(ctx).executor,
        r matches Err(e) ==> e == StrategyError::Unauthorized && *final(ctx) == *old(ctx),
        r is Ok ==> *final(ctx) == (ExecuteStrategy {
            strategy: Strategy {
                total_executions: bumped(old(ctx).strategy.total_executions),
                ..old(ctx).strategy
            },
            user_strategy: UserStrategy {
                times_executed: bumped(old(ctx).user_strategy.times_executed),
                ..old(ctx).user_strategy
            },
            execution: StrategyExecution {
                strategy: old(ctx).strategy_key,
                executor: old(ctx).executor,
                executed_at: timestamp,
                input_amount,
                output_amount: 0,
                profit: 0,
                success: false,
                bump: old(ctx).execution_bump,
            },
            ..*old(ctx)
        }),
{
    if ctx.user_strategy.owner != ctx.executor {
        return Err(StrategyError::Unauthorized);
    }
    ctx.execution.strategy = ctx.strategy_key;
    ctx.execution.executor = ctx.executor;
    ctx.execution.executed_at = timestamp;
    ctx.execution.input_amount = input_amount;
    ctx.execution.output_amount = 0;
    ctx.execution.profit = 0;
    ctx.execution.success = false;
    ctx.execution.bump = ctx.execution_bump;
    ctx.strategy.total_executions = bump_counter(ctx.strategy.total_executions);
    ctx.user_strategy.times_executed = bump_counter(ctx.user_strategy.times_executed);
    Ok(())
}

} // verus!
