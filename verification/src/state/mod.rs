pub mod global_state;
pub mod share_laws;
pub mod strategy;
pub mod strategy_execution;
pub mod swap_context;
pub mod user_state;
pub mod user_strategy;
pub mod vault;

pub use global_state::GlobalState;
pub use strategy::{Strategy, StrategyParameters, StrategyType};
pub use strategy_execution::StrategyExecution;
pub use swap_context::SwapContext;
pub use user_state::UserState;
pub use user_strategy::UserStrategy;
pub use vault::Vault;
