pub mod execute_swap;
pub mod initialize_fee_vault;
pub mod initialize_global_state;
pub mod jupiter_swap;
pub mod marketplace;
pub mod register_user;
pub mod test_helper;
pub mod vault;

pub use crate::guard::AccountMetaData;
pub use execute_swap::{handler, ExecuteSwap};
pub use initialize_fee_vault::{initialize_fee_vault, InitializeFeeVault};
pub use initialize_global_state::{initialize_global_state_handler, InitializeGlobalState};
pub use jupiter_swap::{jupiter_swap_handler, jupiter_swap_step, Jupiter, JupiterSwap};
pub use marketplace::{
    buy_strategy, create_strategy, record_execution_result, update_strategy_status, BuyStrategy,
    CreateStrategy, RecordExecutionResult, UpdateStrategy,
};
pub use register_user::{register_user_handler, RegisterUser};
pub use test_helper::{test_increase_assets, TestIncreaseAssets};
pub use vault::{
    deposit, execute_jupiter_swap_inline, execute_jupiter_swap_step, execute_strategy,
    execute_strategy_step, initialize_vault, set_strategy_enabled, update_vault_accounting,
    withdraw, Deposit, DepositReceipt, ExecuteStrategy, InitializeVault, JupiterStrategyType,
    SetStrategyEnabled, Withdraw, WithdrawReceipt,
};
