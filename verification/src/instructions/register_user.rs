use crate::address::Address;
use crate::events::UserRegistered;
use crate::state::UserState;
use vstd::prelude::*;

verus! {

/// The accounts the registration of a principal works on.
#[derive(Clone, Copy, Debug, PartialEq, Eq)]
pub struct RegisterUser {
    /// The record to fill in.
    pub user_state: UserState,
    /// Nonce of the record's derived address.
    pub user_state_bump: u8,
    /// Who pays for the record.
    pub authority: Address,
    /// The principal registered.
    pub user: Address,
}

/// Creates the counters of a principal, at zero, and returns the notification to emit.
pub fn register_user_handler(ctx: &mut RegisterUser) -> (r: UserRegistered)
    ensures
        *final(ctx) == (RegisterUser {
            user_state: UserState {
                user: old(ctx).user,
                bump: old(ctx).user_state_bump,
                total_volume: 0,
                swaps: 0,
            },
            ..*old(ctx)
        }),
        r == (UserRegistered { user: old(ctx).user }),
{
    ctx.user_state.user = ctx.user;
    ctx.user_state.total_volume = 0;
    ctx.user_state.swaps = 0;
    ctx.user_state.bump = ctx.user_state_bump;
    UserRegistered { user: ctx.user }
}

} // verus!
