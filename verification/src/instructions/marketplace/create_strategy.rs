use crate::address::Address;
use crate::error::StrategyError;
use crate::state::strategy::{byte_len, MAX_DESCRIPTION_LEN, MAX_NAME_LEN};
use crate::state::{Strategy, StrategyParameters, StrategyType};
use vstd::prelude::*;

verus! {

/// The accounts the creation of a strategy works on.
#[derive(Debug, PartialEq, Eq)]
pub struct CreateStrategy {
    /// The record to fill in.
    pub strategy: Strategy,
    /// Nonce of the record's derived address.
    pub strategy_bump: u8,
    /// The creator, who signs.
    pub creator: Address,
}

/// What `create_strategy` returns: a name or a description over its limit is refused,
/// the name first.
pub open spec fn create_result(name: Seq<char>, description: Seq<char>) -> Result<
    (),
    StrategyError,
> {
    if byte_len(name) > MAX_NAME_LEN {
        Err(StrategyError::NameTooLong)
    } else if byte_len(description) > MAX_DESCRIPTION_LEN {
        Err(StrategyError::DescriptionTooLong)
    } else {
        Ok(())
    }
}

/// Puts a new strategy on the marketplace: active, with all its statistics at zero.
/// A name or a description over its limit is refused and leaves the record as it was.
pub fn create_strategy(
    ctx: &mut CreateStrategy,
    strategy_id: u64,
    name: String,
    description: String,
    price: u64,
    strategy_type: StrategyType,
    parameters: StrategyParameters,
    timestamp: i64,
) -> (r: Result<(), StrategyError>)
    ensures
        r == create_result(name@, description@),
        r is Err ==> *final(ctx) == *old(ctx),
        r is Ok ==> *final(ctx) == (CreateStrategy {
            strategy: Strategy {
                creator: old(ctx).creator,
                strategy_id,
                name,
                description,
                price,
                is_active: true,
                total_purchases: 0,
                total_executions: 0,
                total_profit: 0,
                success_rate: 0,
                created_at: timestamp,
                strategy_type,
                parameters,
                bump: old(ctx).strategy_bump,
            },
            ..*old(ctx)
        }) && final(ctx).strategy.wf(),
{
    if name.as_str().as_bytes().len() > 50 {
        return Err(StrategyError::NameTooLong);
    }
    if description.as_str().as_bytes().len() > 200 {
        return Err(StrategyError::DescriptionTooLong);
    }
    ctx.strategy.creator = ctx.creator;
    ctx.strategy.strategy_id = strategy_id;
    ctx.strategy.name = name;
    ctx.strategy.description = description;
    ctx.strategy.price = price;
    ctx.strategy.is_active = true;
    ctx.strategy.total_purchases = 0;
    ctx.strategy.total_executions = 0;
    ctx.strategy.total_profit = 0;
    ctx.strategy.success_rate = 0;
    ctx.strategy.created_at = timestamp;
    ctx.strategy.strategy_type = strategy_type;
    ctx.strategy.parameters = parameters;
    ctx.strategy.bump = ctx.strategy_bump;
    Ok(())
}

} // verus!
