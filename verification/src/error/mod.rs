pub mod jupiter_swap_error;
pub mod strategy_error;
pub mod vault_error;

pub use jupiter_swap_error::JupiterSwapError;
pub use strategy_error::StrategyError;
pub use vault_error::VaultError;

use vstd::prelude::*;

verus! {

/// First code of the range in which the program reports its own failures.
pub const ERROR_CODE_OFFSET: u32 = 6000;

} // verus!
