use crate::address::Address;
use vstd::prelude::*;

verus! {

/// One buyer's copy of a strategy, with the buyer's own statistics.
#[derive(Clone, Copy, Debug, PartialEq, Eq)]
pub struct UserStrategy {
    pub owner: Address,
    /// Address of the strategy bought.
    pub strategy: Address,
    pub purchased_at: i64,
    pub times_executed: u64,
    /// Sum of the profits and losses recorded for this buyer.
    pub total_profit: i64,
    /// Nonce of the record's derived address.
    pub bump: u8,
}

impl UserStrategy {
    /// Bytes a stored record occupies, discriminator included.
    pub const MAX_SIZE: usize = 8 + 32 + 32 + 8 + 8 + 8 + 1;
}

} // verus!
