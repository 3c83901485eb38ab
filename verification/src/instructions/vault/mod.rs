pub mod deposit;
pub mod execute_strategy;
pub mod initialize_vault;
pub mod manage;
pub mod withdraw;

pub use deposit::{deposit, Deposit, DepositReceipt};
pub use execute_strategy::{
    execute_jupiter_swap_inline, execute_jupiter_swap_step, execute_strategy,
    execute_strategy_step, update_vault_accounting, ExecuteStrategy,
};
pub use initialize_vault::{initialize_vault, InitializeVault};
pub use manage::{set_strategy_enabled, SetStrategyEnabled};
pub use withdraw::{withdraw, Withdraw, WithdrawReceipt};

use vstd::prelude::*;

verus! {

/// The strategies a vault can be asked to run.
#[derive(Clone, Copy, Debug, PartialEq, Eq, Structural)]
pub enum JupiterStrategyType {
    /// Swap through the external swap target.
    JupiterSwap,
    /// Rebalance the pool's holdings.
    Rebalance,
    /// Place holdings to earn yield.
    Yield,
}

} // verus!
