use crate::address::Address;
use vstd::prelude::*;

verus! {

/// The protocol-wide settings: who administers them and the fee rate on swaps.
#[derive(Clone, Copy, Debug, PartialEq, Eq)]
pub struct GlobalState {
    pub admin: Address,
    /// Fee on swaps, in basis points.
    pub fee_rate: u16,
    /// Nonce of the record's derived address.
    pub bump: u8,
}

impl GlobalState {
    /// Bytes a stored record occupies after its discriminator.
    pub const LEN: usize = 32 + 1 + 2 + 1;
}

} // verus!
