use crate::address::Address;
use crate::error::StrategyError;
use crate::state::strategy::bump_counter;
use crate::state::strategy::bumped;
use crate::state::{Strategy, UserStrategy};
use crate::token::{TokenAccount, Transfer};
use vstd::prelude::*;

verus! {

/// The accounts the purchase of a strategy works on.
#[derive(Debug, PartialEq, Eq)]
pub struct BuyStrategy {
    /// Address of the strategy bought.
    pub strategy_key: Address,
    pub strategy: Strategy,
    /// The buyer's record to fill in.
    pub user_strategy: UserStrategy,
    /// Nonce of that record's derived address.
    pub user_strategy_bump: u8,
    /// The buyer, who signs.
    pub buyer: Address,
    pub creator: Address,
    /// The buyer's account of the payment asset.
    pub buyer_token_account: TokenAccount,
    /// The creator's account of the payment asset.
    pub creator_token_account: TokenAccount,
}

/// What `buy_strategy` decides before anything changes: an inactive strategy is
/// refused, then a strategy without a price.
pub open spec fn purchase_result(strategy: Strategy) -> Result<(), StrategyError> {
    if !strategy.is_active {
        Err(StrategyError::StrategyInactive)
    } else if strategy.price == 0 {
        Err(StrategyError::InvalidPrice)
    } else {
        Ok(())
    }
}

/// Sells the strategy to the buyer: counts the purchase, writes the buyer's record, and
/// returns the payment to move from the buyer to the creator, authorised by the buyer.
/// On refusal nothing has changed.
pub fn buy_strategy(ctx: &mut BuyStrategy, timestamp: i64) -> (r: Result<Transfer, StrategyError>)
    ensures
        r is Ok <==> purchase_result(old(ctx).strategy) is Ok,
        r matches Err(e) ==> purchase_result(old(ctx).strategy) == Err::<(), StrategyError>(e)
            && *final(ctx) == *old(ctx),
        r matches Ok(payment) ==> {
            &&& payment == (Transfer {
                from: old(ctx).buyer_token_account.key,
                to: old(ctx).creator_token_account.key,
                authority: old(ctx).buyer,
                amount: old(ctx).strategy.price,
            })
            &&& *final(ctx) == (BuyStrategy {
                strategy: Strategy {
                    total_purchases: bumped(old(ctx).strategy.total_purchases),
                    ..old(ctx).strategy
                },
                user_strategy: UserStrategy {
                    owner: old(ctx).buyer,
                    strategy: old(ctx).strategy_key,
                    purchased_at: timestamp,
                    times_executed: 0,
                    total_profit: 0,
                    bump: old(ctx).user_strategy_bump,
                },
                ..*old(ctx)
            })
        },
{
    if !ctx.strategy.is_active {
        return Err(StrategyError::StrategyInactive);
    }
    if ctx.strategy.price == 0 {
        return Err(StrategyError::InvalidPrice);
    }
    let payment = Transfer {
        from: ctx.buyer_token_account.key,
        to: ctx.creator_token_account.key,
        authority: ctx.buyer,
        amount: ctx.strategy.price,
    };
    ctx.strategy.total_purchases = bump_counter(ctx.strategy.total_purchases);
    ctx.user_strategy.owner = ctx.buyer;
    ctx.user_strategy.strategy = ctx.strategy_key;
    ctx.user_strategy.purchased_at = timestamp;
    ctx.user_strategy.times_executed = 0;
    ctx.user_strategy.total_profit = 0;
    ctx.user_strategy.bump = ctx.user_strategy_bump;
    Ok(payment)
}

} // verus!
