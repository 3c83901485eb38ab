use crate::address::Address;
use crate::error::JupiterSwapError;
use crate::events::SwapEvent;
use crate::state::{SwapContext, UserState};
use vstd::prelude::*;

verus! {

/// The accounts the recording of a swap request works on.
#[derive(Clone, Copy, Debug, PartialEq, Eq)]
pub struct ExecuteSwap {
    /// The principal, who signs.
    pub user: Address,
    pub user_state: UserState,
    /// The record to fill in; its slot is the principal's swap count.
    pub swap_context: SwapContext,
    /// Nonce of the record's derived address.
    pub swap_context_bump: u8,
}

impl ExecuteSwap {
    /// The record that is written for a request.
    pub open spec fn recorded(
        &self,
        amount_in: u64,
        min_amount_out: u64,
        input_mint: Address,
        output_mint: Address,
        timestamp: i64,
    ) -> SwapContext {
        SwapContext {
            user: self.user,
            input_mint,
            output_mint,
            amount_in,
            min_amount_out,
            timestamp,
            bump: self.swap_context_bump,
        }
    }
}

/// Records a swap request under the principal's running swap count and advances the
/// principal's counters. Where a counter would overflow, nothing is recorded.
pub fn handler(
    ctx: &mut ExecuteSwap,
    amount_in: u64,
    min_amount_out: u64,
    input_mint: Address,
    output_mint: Address,
    timestamp: i64,
) -> (r: Result<SwapEvent, JupiterSwapError>)
    ensures
        r is Ok <==> old(ctx).user_state.can_count(amount_in),
        r matches Err(e) ==> e == JupiterSwapError::MathOverflow && *final(ctx) == *old(ctx),
        r matches Ok(event) ==> {
            &&& *final(ctx) == (ExecuteSwap {
                user_state: old(ctx).user_state.after_swap(amount_in),
                swap_context: old(ctx).recorded(
                    amount_in,
                    min_amount_out,
                    input_mint,
                    output_mint,
                    timestamp,
                ),
                ..*old(ctx)
            })
            &&& event == (SwapEvent {
                user: old(ctx).user,
                amount_in,
                input_mint,
                output_mint,
                swap_id: old(ctx).user_state.swaps,
                timestamp,
            })
        },
{
    let swap_id = ctx.user_state.swaps;
    let total_volume = match ctx.user_state.total_volume.checked_add(amount_in) {
        None => {
            return Err(JupiterSwapError::MathOverflow);
        },
        Some(v) => v,
    };
    let swaps = match ctx.user_state.swaps.checked_add(1) {
        None => {
            return Err(JupiterSwapError::MathOverflow);
        },
        Some(n) => n,
    };
    ctx.swap_context.user = ctx.user;
    ctx.swap_context.input_mint = input_mint;
    ctx.swap_context.output_mint = output_mint;
    ctx.swap_context.amount_in = amount_in;
    ctx.swap_context.min_amount_out = min_amount_out;
    ctx.swap_context.timestamp = timestamp;
    ctx.swap_context.bump = ctx.swap_context_bump;
    ctx.user_state.total_volume = total_volume;
    ctx.user_state.swaps = swaps;
    Ok(
        SwapEvent {
            user: ctx.user,
            amount_in,
            input_mint,
            output_mint,
            swap_id,
            timestamp: ctx.swap_context.timestamp,
        },
    )
}

} // verus!
