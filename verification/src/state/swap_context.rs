use crate::address::Address;
use vstd::prelude::*;

verus! {

/// The record of one swap request, written once and kept.
#[derive(Clone, Copy, Debug, PartialEq, Eq)]
pub struct SwapContext {
    pub user: Address,
    pub input_mint: Address,
    pub output_mint: Address,
    pub amount_in: u64,
    pub min_amount_out: u64,
    pub timestamp: i64,
    /// Nonce of the record's derived address.
    pub bump: u8,
}

impl SwapContext {
    /// Bytes a stored record occupies after its discriminator.
    pub const LEN: usize = 32 + 32 + 32 + 8 + 8 + 8 + 1;
}

} // verus!
