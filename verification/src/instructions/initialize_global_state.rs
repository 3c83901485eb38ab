use crate::address::Address;
use crate::events::GlobalStateInitialized;
use crate::state::GlobalState;
use vstd::prelude::*;

verus! {

/// The accounts the creation of the protocol-wide settings works on.
#[derive(Clone, Copy, Debug, PartialEq, Eq)]
pub struct InitializeGlobalState {
    /// The record to fill in.
    pub global_state: GlobalState,
    /// Nonce of the record's derived address.
    pub global_state_bump: u8,
    /// The creator, who becomes the administrator.
    pub admin: Address,
}

/// Creates the protocol-wide settings with the given fee rate and returns the
/// notification to emit.
pub fn initialize_global_state_handler(ctx: &mut InitializeGlobalState, fee_rate: u16) -> (r:
    GlobalStateInitialized)
    ensures
        *final(ctx) == (InitializeGlobalState {
            global_state: GlobalState {
                admin: old(ctx).admin,
                fee_rate,
                bump: old(ctx).global_state_bump,
            },
            ..*old(ctx)
        }),
        r == (GlobalStateInitialized { admin: old(ctx).admin, fee_rate }),
{
    ctx.global_state.admin = ctx.admin;
    ctx.global_state.fee_rate = fee_rate;
    ctx.global_state.bump = ctx.global_state_bump;
    GlobalStateInitialized { admin: ctx.global_state.admin, fee_rate: ctx.global_state.fee_rate }
}

} // verus!
