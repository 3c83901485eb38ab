use crate::address::Address;
use vstd::prelude::*;

verus! {

/// Running counters of one principal: how much it has swapped, and how often.
#[derive(Clone, Copy, Debug, PartialEq, Eq)]
pub struct UserState {
    pub user: Address,
    /// Nonce of the record's derived address.
    pub bump: u8,
    /// Sum of the amounts put up in all swaps.
    pub total_volume: u64,
    /// Number of swaps.
    pub swaps: u64,
}

impl UserState {
    /// Bytes a stored record occupies after its discriminator.
    pub const LEN: usize = 32 + 1 + 8 + 8;

    /// The counters after one more swap of `amount_in`.
    pub open spec fn after_swap(&self, amount_in: u64) -> UserState {
        UserState {
            total_volume: (self.total_volume + amount_in) as u64,
            swaps: (self.swaps + 1) as u64,
            ..*self
        }
    }

    /// One more swap of `amount_in` can be counted without overflow.
    pub open spec fn can_count(&self, amount_in: u64) -> bool {
        self.total_volume + amount_in <= u64::MAX && self.swaps + 1 <= u64::MAX
    }
}

} // verus!
