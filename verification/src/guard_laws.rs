use crate::address::Address;
use crate::error::{JupiterSwapError, VaultError};
use crate::guard::{
    meta_keys, touches_protected, AccountMetaData, SwapActionView, SwapInstructionView,
    SwapStage, SwapState, writable_metas,
};
use crate::instructions::jupiter_swap::JupiterSwap;
use crate::instructions::vault::execute_strategy::ExecuteStrategy;
use crate::token::Transfer;
use crate::utils::fee::{fee_of, lemma_fee_at_most_amount};
use vstd::prelude::*;

verus! {

/// The stage that follows `stage` when a step succeeds; a swap that has ended stays
/// where it is.
pub open spec fn successor(stage: SwapStage) -> SwapStage {
    match stage {
        SwapStage::Validating => SwapStage::FeeCollected,
        SwapStage::FeeCollected => SwapStage::AllowListChecked,
        SwapStage::AllowListChecked => SwapStage::Forwarded,
        SwapStage::Forwarded => SwapStage::Reconciled,
        SwapStage::Reconciled => SwapStage::Committed,
        SwapStage::Committed => SwapStage::Committed,
        SwapStage::Aborted => SwapStage::Aborted,
    }
}

/// A list that holds `key` at position `i` touches every protected set that holds `key`.
pub proof fn lemma_touches_at(targets: Seq<Address>, protected: Seq<Address>, i: int)
    requires
        0 <= i < targets.len(),
        protected.contains(targets[i]),
    ensures
        touches_protected(targets, protected),
{
}

/// The protected accounts of a user-initiated swap are the fee-collection account, the
/// protocol-wide settings and the principal's counters, and no others.
pub proof fn lemma_user_protected_accounts(ctx: JupiterSwap, key: Address)
    ensures
        ctx.protected_accounts().contains(key) <==> (key == ctx.vault_ata.key || key
            == ctx.global_state_key || key == ctx.user_state_key),
{
    let p = ctx.protected_accounts();
    assert(p[0] == ctx.vault_ata.key && p[1] == ctx.global_state_key && p[2]
        == ctx.user_state_key);
}

/// The protected accounts of a vault-initiated swap are the fee-collection account, the
/// protocol-wide settings, the vault's counters and the vault itself, and no others.
pub proof fn lemma_vault_protected_accounts(ctx: ExecuteStrategy, key: Address)
    ensures
        ctx.protected_accounts().contains(key) <==> (key == ctx.fee_vault_ata.key || key
            == ctx.global_state_key || key == ctx.vault_user_state_key || key == ctx.vault_key),
{
    let p = ctx.protected_accounts();
    assert(p[0] == ctx.fee_vault_ata.key && p[1] == ctx.global_state_key && p[2]
        == ctx.vault_user_state_key && p[3] == ctx.vault_key);
}

/// A user-initiated swap whose targets include a protected account never gets as far as a
/// forwarded call. From the start it either fails validation, or has its fee fixed and
/// then aborts with the protected-account error; either way the accounts stay as they
/// were. `later` is what the accounts read when the second step is taken: the balances
/// may have moved, the addresses have not.
pub proof fn lemma_user_protected_account_aborts(
    ctx: JupiterSwap,
    later: JupiterSwap,
    swap_ix: Seq<u8>,
    accounts_meta: Seq<AccountMetaData>,
    amount_in: u64,
    min_amount_out: u64,
    timestamp: i64,
    target: Option<Address>,
)
    requires
        touches_protected(ctx.remaining_accounts@, ctx.protected_accounts())
            || touches_protected(meta_keys(accounts_meta), ctx.protected_accounts()),
        later.remaining_accounts@ == ctx.remaining_accounts@,
        later.protected_accounts() == ctx.protected_accounts(),
    ensures
        ({
            let first = ctx.spec_step(
                SwapState::initial(),
                swap_ix,
                accounts_meta,
                amount_in,
                min_amount_out,
                timestamp,
                target,
            );
            let second = later.spec_step(
                first.1,
                swap_ix,
                accounts_meta,
                amount_in,
                min_amount_out,
                timestamp,
                target,
            );
            &&& first.0 == ctx
            &&& !(first.2 is Invoke)
            &&& first.1.stage == SwapStage::Aborted || first.1.stage == SwapStage::FeeCollected
            &&& first.1.stage == SwapStage::FeeCollected ==> second == (
                later,
                first.1.at(SwapStage::Aborted),
                SwapActionView::<crate::events::JupiterSwapEvent, JupiterSwapError>::Abort {
                    error: JupiterSwapError::ProtectedAccountInRemainingAccounts,
                },
            )
        }),
{
}

/// A vault-initiated swap whose targets include a protected account never gets as far
/// as a forwarded call. From the start it either fails validation, or has its fee fixed
/// and then aborts with the protected-account error; either way the accounts stay as
/// they were. `later` is what the accounts read when the second step is taken: the
/// balances may have moved, the addresses have not.
pub proof fn lemma_vault_protected_account_aborts(
    ctx: ExecuteStrategy,
    later: ExecuteStrategy,
    amount: u64,
    min_output: u64,
    swap_ix_data: Seq<u8>,
    accounts_meta: Seq<Address>,
    timestamp: i64,
    target: Option<Address>,
)
    requires
        touches_protected(ctx.remaining_accounts@, ctx.protected_accounts())
            || touches_protected(accounts_meta, ctx.protected_accounts()),
        later.remaining_accounts@ == ctx.remaining_accounts@,
        later.protected_accounts() == ctx.protected_accounts(),
    ensures
        ({
            let first = ctx.spec_swap_step(
                SwapState::initial(),
                amount,
                min_output,
                swap_ix_data,
                accounts_meta,
                timestamp,
                target,
            );
            let second = later.spec_swap_step(
                first.1,
                amount,
                min_output,
                swap_ix_data,
                accounts_meta,
                timestamp,
                target,
            );
            &&& first.0 == ctx
            &&& !(first.2 is Invoke)
            &&& first.1.stage == SwapStage::Aborted || first.1.stage == SwapStage::FeeCollected
            &&& first.1.stage == SwapStage::FeeCollected ==> second == (
                later,
                first.1.at(SwapStage::Aborted),
                SwapActionView::<crate::events::StrategyExecutedEvent, VaultError>::Abort {
                    error: VaultError::ProtectedAccountInRemainingAccounts,
                },
            )
        }),
{
}

/// Every step of a user-initiated swap either aborts or moves to the next stage, and a
/// swap that has ended stays ended. A step that aborts changes nothing in the accounts;
/// indeed only the step that commits does, and what it changes is the principal's
/// counters: one more swap, and the amount put up more volume.
pub proof fn lemma_user_step_is_atomic(
    ctx: JupiterSwap,
    state: SwapState,
    swap_ix: Seq<u8>,
    accounts_meta: Seq<AccountMetaData>,
    amount_in: u64,
    min_amount_out: u64,
    timestamp: i64,
    target: Option<Address>,
)
    ensures
        ({
            let next = ctx.spec_step(
                state,
                swap_ix,
                accounts_meta,
                amount_in,
                min_amount_out,
                timestamp,
                target,
            );
            &&& next.1.stage == SwapStage::Aborted || next.1.stage == successor(state.stage)
            &&& state.is_terminal() ==> next == (
                ctx,
                state,
                SwapActionView::<crate::events::JupiterSwapEvent, JupiterSwapError>::Halt,
            )
            &&& next.2 is Abort <==> !state.is_terminal() && next.1.stage == SwapStage::Aborted
            &&& next.2 is Abort ==> next.0 == ctx
            &&& next.2 is Emit <==> state.stage == SwapStage::Reconciled && next.1.stage
                == SwapStage::Committed
            &&& !(next.2 is Emit) ==> next.0 == ctx
            &&& next.2 is Emit ==> next.0 == ctx.after_swap(state.amount_in)
                && next.0.user_state.swaps == ctx.user_state.swaps + 1
                && next.0.user_state.total_volume == ctx.user_state.total_volume
                + state.amount_in
        }),
{
}

/// Every step of a vault-initiated swap either aborts or moves to the next stage, and a
/// swap that has ended stays ended. A step that aborts changes nothing in the accounts;
/// indeed only the step that commits does, and what it changes is the vault's counters
/// and its accounted assets, which shrink by exactly the input the call consumed.
pub proof fn lemma_vault_step_is_atomic(
    ctx: ExecuteStrategy,
    state: SwapState,
    amount: u64,
    min_output: u64,
    swap_ix_data: Seq<u8>,
    accounts_meta: Seq<Address>,
    timestamp: i64,
    target: Option<Address>,
)
    ensures
        ({
            let next = ctx.spec_swap_step(
                state,
                amount,
                min_output,
                swap_ix_data,
                accounts_meta,
                timestamp,
                target,
            );
            &&& next.1.stage == SwapStage::Aborted || next.1.stage == successor(state.stage)
            &&& state.is_terminal() ==> next == (
                ctx,
                state,
                SwapActionView::<crate::events::StrategyExecutedEvent, VaultError>::Halt,
            )
            &&& next.2 is Abort <==> !state.is_terminal() && next.1.stage == SwapStage::Aborted
            &&& next.2 is Abort ==> next.0 == ctx
            &&& next.2 is Emit <==> state.stage == SwapStage::Reconciled && next.1.stage
                == SwapStage::Committed
            &&& !(next.2 is Emit) ==> next.0 == ctx
            &&& next.2 is Emit ==> next.0 == ctx.after_swap(state.amount_in, state.actual_input_used)
                && next.0.vault_user_state.swaps == ctx.vault_user_state.swaps + 1
                && next.0.vault_user_state.total_volume == ctx.vault_user_state.total_volume
                + state.amount_in && next.0.vault.total_assets == ctx.vault.total_assets
                - state.actual_input_used && next.0.vault.total_shares
                == ctx.vault.total_shares
        }),
{
}

/// A user-initiated swap that passes validation splits the amount put up into the fee,
/// rounded up, and the rest, which is all the external call may consume; it remembers
/// the balances it started from; and it asks for the fee's transfer exactly when there
/// is a fee, from the principal's input account to the fee-collection account, on the
/// principal's own authority.
pub proof fn lemma_user_fee_split(
    ctx: JupiterSwap,
    swap_ix: Seq<u8>,
    accounts_meta: Seq<AccountMetaData>,
    amount_in: u64,
    min_amount_out: u64,
    timestamp: i64,
    target: Option<Address>,
)
    ensures
        ({
            let next = ctx.spec_step(
                SwapState::initial(),
                swap_ix,
                accounts_meta,
                amount_in,
                min_amount_out,
                timestamp,
                target,
            );
            next.1.stage == SwapStage::FeeCollected ==> {
                &&& amount_in > 0
                &&& ctx.user_input_ata.amount >= amount_in
                &&& next.1.fee == fee_of(amount_in as int, ctx.global_state.fee_rate as int)
                &&& next.1.fee + next.1.swap_amount == amount_in
                &&& next.1.amount_in == amount_in
                &&& next.1.min_amount_out == min_amount_out
                &&& next.1.input_balance_before == ctx.user_input_ata.amount
                &&& next.1.output_balance_before == ctx.user_output_ata.amount
                &&& next.1.fee == 0 ==> next.2 is Continue
                &&& next.1.fee > 0 ==> next.2 == SwapActionView::<
                    crate::events::JupiterSwapEvent,
                    JupiterSwapError,
                >::TransferFee {
                    transfer: Transfer {
                        from: ctx.user_input_ata.key,
                        to: ctx.vault_ata.key,
                        authority: ctx.user,
                        amount: next.1.fee,
                    },
                }
            }
        }),
{
    if ctx.global_state.fee_rate <= 10000 {
        lemma_fee_at_most_amount(amount_in as int, ctx.global_state.fee_rate as int);
    }
}

/// A vault-initiated swap that passes validation splits the amount put up into the fee,
/// rounded up, and the rest, which is all the external call may consume; it remembers
/// the balances it started from; and it asks for the fee's transfer exactly when there
/// is a fee, from the vault's input escrow to the fee-collection account, on the
/// vault's own authority.
pub proof fn lemma_vault_fee_split(
    ctx: ExecuteStrategy,
    amount: u64,
    min_output: u64,
    swap_ix_data: Seq<u8>,
    accounts_meta: Seq<Address>,
    timestamp: i64,
    target: Option<Address>,
)
    ensures
        ({
            let next = ctx.spec_swap_step(
                SwapState::initial(),
                amount,
                min_output,
                swap_ix_data,
                accounts_meta,
                timestamp,
                target,
            );
            next.1.stage == SwapStage::FeeCollected ==> {
                &&& amount > 0
                &&& ctx.vault_input_ata.amount >= amount
                &&& next.1.fee == fee_of(amount as int, ctx.global_state.fee_rate as int)
                &&& next.1.fee + next.1.swap_amount == amount
                &&& next.1.amount_in == amount
                &&& next.1.min_amount_out == min_output
                &&& next.1.input_balance_before == ctx.vault_input_ata.amount
                &&& next.1.output_balance_before == ctx.vault_output_ata.amount
                &&& next.1.fee == 0 ==> next.2 is Continue
                &&& next.1.fee > 0 ==> next.2 == SwapActionView::<
                    crate::events::StrategyExecutedEvent,
                    VaultError,
                >::TransferFee {
                    transfer: Transfer {
                        from: ctx.vault_input_ata.key,
                        to: ctx.fee_vault_ata.key,
                        authority: ctx.vault_key,
                        amount: next.1.fee,
                    },
                }
            }
        }),
{
    if ctx.global_state.fee_rate <= 10000 {
        lemma_fee_at_most_amount(amount as int, ctx.global_state.fee_rate as int);
    }
}

/// A call is handed out for invocation only once the allow list has been checked, only
/// to the configured swap target, and it carries the caller's accounts and payload
/// exactly as declared. The library adds no signer to it: the call goes out on the
/// signatures the principal's transaction already has.
pub proof fn lemma_user_forwarded_call(
    ctx: JupiterSwap,
    state: SwapState,
    swap_ix: Seq<u8>,
    accounts_meta: Seq<AccountMetaData>,
    amount_in: u64,
    min_amount_out: u64,
    timestamp: i64,
    target: Option<Address>,
)
    ensures
        ({
            let next = ctx.spec_step(
                state,
                swap_ix,
                accounts_meta,
                amount_in,
                min_amount_out,
                timestamp,
                target,
            );
            &&& next.1.stage == SwapStage::AllowListChecked ==> state.stage
                == SwapStage::FeeCollected && !touches_protected(
                ctx.remaining_accounts@,
                ctx.protected_accounts(),
            ) && !touches_protected(meta_keys(accounts_meta), ctx.protected_accounts())
            &&& next.2 matches SwapActionView::Invoke { instruction, signer } ==> state.stage
                == SwapStage::AllowListChecked && next.1.stage == SwapStage::Forwarded
                && target == Some(instruction.program_id) && signer is None && instruction == (
                SwapInstructionView {
                    program_id: ctx.jupiter_program,
                    accounts: accounts_meta,
                    data: swap_ix,
                })
        }),
{
}

/// A call is handed out for invocation only once the allow list has been checked, only
/// to the configured swap target, and it carries the caller's payload exactly as
/// declared and the caller's accounts as writable and not signing. It is signed by the
/// vault itself, through its derived authority: the same identity that authorises the
/// fee transfer.
pub proof fn lemma_vault_forwarded_call(
    ctx: ExecuteStrategy,
    state: SwapState,
    amount: u64,
    min_output: u64,
    swap_ix_data: Seq<u8>,
    accounts_meta: Seq<Address>,
    timestamp: i64,
    target: Option<Address>,
)
    ensures
        ({
            let next = ctx.spec_swap_step(
                state,
                amount,
                min_output,
                swap_ix_data,
                accounts_meta,
                timestamp,
                target,
            );
            &&& next.1.stage == SwapStage::AllowListChecked ==> state.stage
                == SwapStage::FeeCollected && !touches_protected(
                ctx.remaining_accounts@,
                ctx.protected_accounts(),
            ) && !touches_protected(accounts_meta, ctx.protected_accounts())
            &&& next.2 matches SwapActionView::Invoke { instruction, signer } ==> state.stage
                == SwapStage::AllowListChecked && next.1.stage == SwapStage::Forwarded
                && target == Some(instruction.program_id) && signer == Some(ctx.vault_key)
                && instruction == (SwapInstructionView {
                    program_id: ctx.jupiter_program,
                    accounts: writable_metas(accounts_meta),
                    data: swap_ix_data,
                })
        }),
{
}

/// After the external call a user-initiated swap goes on only if the input balance has
/// not grown, the output balance has not shrunk, no more input has gone than was
/// authorised, and no less output has come than the declared minimum. A shortfall in
/// output, with the rest in order, aborts with the slippage error.
pub proof fn lemma_user_reconciliation(
    ctx: JupiterSwap,
    state: SwapState,
    swap_ix: Seq<u8>,
    accounts_meta: Seq<AccountMetaData>,
    amount_in: u64,
    min_amount_out: u64,
    timestamp: i64,
    target: Option<Address>,
)
    requires
        state.stage == SwapStage::Forwarded,
    ensures
        ({
            let next = ctx.spec_step(
                state,
                swap_ix,
                accounts_meta,
                amount_in,
                min_amount_out,
                timestamp,
                target,
            );
            let used = state.input_balance_before - ctx.user_input_ata.amount;
            let received = ctx.user_output_ata.amount - state.output_balance_before;
            &&& next.1.stage == SwapStage::Reconciled <==> 0 <= used <= state.swap_amount
                && received >= state.min_amount_out
            &&& next.1.stage == SwapStage::Reconciled ==> next.1.actual_input_used == used
                && next.1.actual_output_received == received
            &&& used < 0 || received < 0 ==> next.2 == SwapActionView::<
                crate::events::JupiterSwapEvent,
                JupiterSwapError,
            >::Abort { error: JupiterSwapError::MathOverflow }
            &&& used >= 0 && received >= 0 && used > state.swap_amount ==> next.2
                == SwapActionView::<crate::events::JupiterSwapEvent, JupiterSwapError>::Abort {
                error: JupiterSwapError::UnexpectedInputAmount,
            }
            &&& 0 <= used <= state.swap_amount && 0 <= received < state.min_amount_out
                ==> next.2 == SwapActionView::<
                crate::events::JupiterSwapEvent,
                JupiterSwapError,
            >::Abort { error: JupiterSwapError::SlippageExceeded }
        }),
{
}

/// After the external call a vault-initiated swap goes on only if the input balance has
/// not grown, the output balance has not shrunk, no more input has gone than was
/// authorised, and no less output has come than the declared minimum. A shortfall in
/// output, with the rest in order, aborts with the slippage error.
pub proof fn lemma_vault_reconciliation(
    ctx: ExecuteStrategy,
    state: SwapState,
    amount: u64,
    min_output: u64,
    swap_ix_data: Seq<u8>,
    accounts_meta: Seq<Address>,
    timestamp: i64,
    target: Option<Address>,
)
    requires
        state.stage == SwapStage::Forwarded,
    ensures
        ({
            let next = ctx.spec_swap_step(
                state,
                amount,
                min_output,
                swap_ix_data,
                accounts_meta,
                timestamp,
                target,
            );
            let used = state.input_balance_before - ctx.vault_input_ata.amount;
            let received = ctx.vault_output_ata.amount - state.output_balance_before;
            &&& next.1.stage == SwapStage::Reconciled <==> 0 <= used <= state.swap_amount
                && received >= state.min_amount_out
            &&& next.1.stage == SwapStage::Reconciled ==> next.1.actual_input_used == used
                && next.1.actual_output_received == received
            &&& used < 0 || received < 0 ==> next.2 == SwapActionView::<
                crate::events::StrategyExecutedEvent,
                VaultError,
            >::Abort { error: VaultError::MathOverflow }
            &&& used >= 0 && received >= 0 && used > state.swap_amount ==> next.2
                == SwapActionView::<crate::events::StrategyExecutedEvent, VaultError>::Abort {
                error: VaultError::UnexpectedInputAmount,
            }
            &&& 0 <= used <= state.swap_amount && 0 <= received < state.min_amount_out
                ==> next.2 == SwapActionView::<
                crate::events::StrategyExecutedEvent,
                VaultError,
            >::Abort { error: VaultError::SlippageExceeded }
        }),
{
}

} // verus!
