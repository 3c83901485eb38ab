use crate::address::Address;
use vstd::prelude::*;

verus! {

/// A swap request was recorded.
#[derive(Clone, Copy, Debug, PartialEq, Eq)]
pub struct SwapEvent {
    pub user: Address,
    pub amount_in: u64,
    pub input_mint: Address,
    pub output_mint: Address,
    /// Position of the swap among the user's swaps.
    pub swap_id: u64,
    pub timestamp: i64,
}

/// The protocol-wide settings were created.
#[derive(Clone, Copy, Debug, PartialEq, Eq)]
pub struct GlobalStateInitialized {
    pub admin: Address,
    pub fee_rate: u16,
}

/// A guarded swap was committed.
#[derive(Clone, Copy, Debug, PartialEq, Eq)]
pub struct JupiterSwapEvent {
    pub user: Address,
    pub input_mint: Address,
    pub output_mint: Address,
    pub amount_in: u64,
    pub fee: u64,
    pub timestamp: i64,
}

/// A principal's counters were created.
#[derive(Clone, Copy, Debug, PartialEq, Eq)]
pub struct UserRegistered {
    pub user: Address,
}

} // verus!
