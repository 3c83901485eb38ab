pub mod buy_strategy;
pub mod create_strategy;
pub mod execute_marketplace_strategy;
pub mod record_execution_result;
pub mod update_strategy;

pub use buy_strategy::{buy_strategy, BuyStrategy};
pub use create_strategy::{create_strategy, CreateStrategy};
pub use record_execution_result::{record_execution_result, RecordExecutionResult};
pub use update_strategy::{update_strategy_status, UpdateStrategy};
