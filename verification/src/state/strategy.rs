use crate::address::Address;
use vstd::prelude::*;

verus! {

/// Longest strategy name, in bytes.
pub const MAX_NAME_LEN: usize = 50;

/// Longest strategy description, in bytes.
pub const MAX_DESCRIPTION_LEN: usize = 200;

/// A success rate of one hundred percent, in basis points.
pub const FULL_SUCCESS_RATE: u16 = 10000;

/// The kinds of strategy offered on the marketplace.
#[derive(Clone, Copy, Debug, PartialEq, Eq, Structural)]
pub enum StrategyType {
    /// Buy low, sell high across venues.
    Arbitrage,
    /// Stake and earn yields.
    YieldFarming,
    /// Portfolio rebalancing.
    Rebalancing,
    /// Defined by its creator.
    Custom,
}

/// How a strategy is to trade.
#[derive(Clone, Copy, Debug, PartialEq, Eq)]
pub struct StrategyParameters {
    /// Asset to trade.
    pub input_token: Address,
    /// Asset to obtain.
    pub output_token: Address,
    /// Least profit aimed at, in basis points.
    pub min_profit_bps: u16,
    /// Most slippage tolerated, in basis points.
    pub max_slippage_bps: u16,
    /// Seconds between executions.
    pub execution_interval: i64,
}

/// A strategy offered on the marketplace, with its running statistics.
#[derive(Debug, PartialEq, Eq)]
pub struct Strategy {
    pub creator: Address,
    pub strategy_id: u64,
    pub name: String,
    pub description: String,
    /// Price of a purchase, in units of the payment asset.
    pub price: u64,
    /// Whether the strategy can be bought.
    pub is_active: bool,
    pub total_purchases: u64,
    pub total_executions: u64,
    /// Sum of the profits and losses recorded.
    pub total_profit: i64,
    /// Share of executions recorded as successful, in basis points.
    pub success_rate: u16,
    pub created_at: i64,
    pub strategy_type: StrategyType,
    pub parameters: StrategyParameters,
    /// Nonce of the record's derived address.
    pub bump: u8,
}

/// Length in bytes of a text as it is stored.
pub open spec fn byte_len(text: Seq<char>) -> nat {
    vstd::utf8::encode_utf8(text).len()
}

/// A counter after one more event, starting again from zero once it is full.
pub open spec fn bumped(counter: u64) -> u64 {
    if counter == u64::MAX {
        0
    } else {
        (counter + 1) as u64
    }
}

/// Counts one more event, starting again from zero once the counter is full.
pub fn bump_counter(counter: u64) -> (r: u64)
    ensures
        r == bumped(counter),
{
    match counter.checked_add(1) {
        Some(next) => next,
        None => 0,
    }
}

impl Strategy {
    /// Bytes a stored strategy occupies, discriminator included.
    pub const MAX_SIZE: usize = 8 + 32 + 8 + (4 + 50) + (4 + 200) + 8 + 1 + 8 + 8 + 8 + 2 + 8 + 1
        + (32 + 32 + 2 + 2 + 8) + 1;

    /// The texts fit their limits and the success rate is at most one hundred percent.
    pub open spec fn wf(&self) -> bool {
        &&& byte_len(self.name@) <= MAX_NAME_LEN
        &&& byte_len(self.description@) <= MAX_DESCRIPTION_LEN
        &&& self.success_rate <= FULL_SUCCESS_RATE
    }
}

} // verus!
