pub mod swap_events;
pub mod vault_events;

pub use swap_events::{GlobalStateInitialized, JupiterSwapEvent, SwapEvent, UserRegistered};
pub use vault_events::{DepositEvent, StrategyExecutedEvent, WithdrawEvent};
