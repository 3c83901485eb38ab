use crate::address::Address;
use crate::error::StrategyError;
use crate::state::Strategy;
use vstd::prelude::*;

verus! {

/// The accounts the updating of a strategy works on.
#[derive(Debug, PartialEq, Eq)]
pub struct UpdateStrategy {
    pub strategy: Strategy,
    /// The caller, who signs.
    pub creator: Address,
}

/// Sets whether the strategy can be bought and, where a price is given, its price. Only
/// the strategy's creator may do so; anyone else is refused and nothing changes.
pub fn update_strategy_status(ctx: &mut UpdateStrategy, is_active: bool, new_price: Option<u64>) -> (r:
    Result<(), StrategyError>)
    ensures
        r is Ok <==> old(ctx).strategy.creator == old(ctx).creator,
        r matches Err(e) ==> e == StrategyError::Unauthorized && *final(ctx) == *old(ctx),
        r is Ok ==> *final(ctx) == (UpdateStrategy {
            strategy: Strategy {
                is_active,
                price: match new_price {
                    Some(price) => price,
                    None => old(ctx).strategy.price,
                },
                ..old(ctx).strategy
            },
            ..*old(ctx)
        }),
{
    if ctx.strategy.creator != ctx.creator {
        return Err(StrategyError::Unauthorized);
    }
    ctx.strategy.is_active = is_active;
    if let Some(price) = new_price {
        ctx.strategy.price = price;
    }
    Ok(())
}

} // verus!
