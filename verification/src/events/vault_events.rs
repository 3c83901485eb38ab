use crate::address::Address;
use crate::instructions::vault::JupiterStrategyType;
use vstd::prelude::*;

verus! {

/// Assets entered a vault and shares were issued for them.
#[derive(Clone, Copy, Debug, PartialEq, Eq)]
pub struct DepositEvent {
    pub user: Address,
    pub amount: u64,
    pub shares: u64,
    /// Pool totals after the deposit.
    pub total_assets: u64,
    pub total_shares: u64,
    pub timestamp: i64,
}

/// Shares were redeemed and assets left a vault.
#[derive(Clone, Copy, Debug, PartialEq, Eq)]
pub struct WithdrawEvent {
    pub user: Address,
    pub shares: u64,
    pub amount: u64,
    /// Pool totals after the withdrawal.
    pub total_assets: u64,
    pub total_shares: u64,
    pub timestamp: i64,
}

/// A vault ran a strategy to completion.
#[derive(Clone, Copy, Debug, PartialEq, Eq)]
pub struct StrategyExecutedEvent {
    pub vault: Address,
    pub strategy_type: JupiterStrategyType,
    /// Amount the strategy was authorised to spend, fee included.
    pub amount: u64,
    /// Input assets that left the vault's escrow while the strategy ran, the fee among them.
    pub input_used: u64,
    /// Output assets that arrived in the vault's escrow while the strategy ran.
    pub output_received: u64,
    pub timestamp: i64,
}

} // verus!
