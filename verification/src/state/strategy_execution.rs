use crate::address::Address;
use vstd::prelude::*;

verus! {

/// The record of one execution of a strategy.
#[derive(Clone, Copy, Debug, PartialEq, Eq)]
pub struct StrategyExecution {
    /// Address of the strategy executed.
    pub strategy: Address,
    pub executor: Address,
    pub executed_at: i64,
    pub input_amount: u64,
    pub output_amount: u64,
    pub profit: i64,
    pub success: bool,
    /// Nonce of the record's derived address.
    pub bump: u8,
}

impl StrategyExecution {
    /// Bytes a stored record occupies, discriminator included.
    pub const MAX_SIZE: usize = 8 + 32 + 32 + 8 + 8 + 8 + 8 + 1 + 1;
}

} // verus!
