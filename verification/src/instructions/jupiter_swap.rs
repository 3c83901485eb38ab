use crate::address::{address_of, lemma_address_of, Address};
use crate::error::JupiterSwapError;
use crate::events::JupiterSwapEvent;
use crate::guard::{
    contains_protected_account, copy_bytes, copy_metas, declares_protected_account, meta_keys,
    reconcile, spec_reconcile, touches_protected, AccountMetaData, ReconcileFault, SwapAction,
    SwapActionView, SwapInstruction, SwapInstructionView, SwapStage, SwapState,
};
use crate::state::{GlobalState, UserState};
use crate::token::{TokenAccount, Transfer};
use crate::utils::fee::{calculate_fee, fee_result};
use vstd::prelude::*;

verus! {

/// The address that a base58 string stands for, if it stands for one.
pub uninterp spec fn base58_pubkey(s: Seq<char>) -> Option<Seq<u8>>;

/// Decodes a base58 string into an address with `solana_pubkey::Pubkey::from_str`,
/// reached through `str::parse` on `anchor_lang::prelude::Pubkey`. That function yields
/// the thirty-two bytes the text encodes and refuses text that is too long, holds a
/// character outside the alphabet, or encodes another number of bytes. It reads nothing
/// but the text, so the same text always decodes alike; what it decodes to is not
/// stated here but named, as `base58_pubkey`.
#[verifier::external_body]
fn parse_pubkey(s: &str) -> (r: Option<Address>)
    ensures
        r matches Some(a) ==> base58_pubkey(s@) == Some(a@),
        r is None ==> base58_pubkey(s@) is None,
{
    match s.parse::<anchor_lang::prelude::Pubkey>() {
        Ok(key) => Some(Address { bytes: key.to_bytes() }),
        Err(_) => None,
    }
}

/// The external swap target.
#[derive(Clone, Copy, Debug, PartialEq, Eq)]
pub struct Jupiter;

impl Jupiter {
    /// The address of the swap target, as it is written down.
    pub open spec fn spec_id() -> Option<Address> {
        match base58_pubkey("JUP6LkbZbjS1jKKwapdHNy74zcZ3tLUZoi5QNyVTaV4"@) {
            Some(bytes) => Some(address_of(bytes)),
            None => None,
        }
    }

    /// The address of the swap target, or nothing if its written form decodes to none.
    pub fn id() -> (r: Option<Address>)
        ensures
            r == Jupiter::spec_id(),
    {
        let r = parse_pubkey("JUP6LkbZbjS1jKKwapdHNy74zcZ3tLUZoi5QNyVTaV4");
        proof {
            if let Some(a) = r {
                lemma_address_of(a);
            }
        }
        r
    }
}

/// The accounts a user-initiated guarded swap works on.
#[derive(Debug, PartialEq, Eq)]
pub struct JupiterSwap {
    /// The principal, who signs.
    pub user: Address,
    /// Address of the protocol-wide settings.
    pub global_state_key: Address,
    pub global_state: GlobalState,
    /// Address of the principal's counters.
    pub user_state_key: Address,
    pub user_state: UserState,
    /// The principal's account of the input asset, as last read.
    pub user_input_ata: TokenAccount,
    /// The principal's account of the output asset, as last read.
    pub user_output_ata: TokenAccount,
    /// The protocol's fee-collection account for the input asset.
    pub vault_ata: TokenAccount,
    pub input_mint: Address,
    pub output_mint: Address,
    /// The program the caller asks to have invoked.
    pub jupiter_program: Address,
    /// The accounts handed through to the invoked program.
    pub remaining_accounts: Vec<Address>,
}

/// The error a user-initiated swap reports for a reconciliation fault.
pub open spec fn swap_fault_error(fault: ReconcileFault) -> JupiterSwapError {
    match fault {
        ReconcileFault::BalanceMovedBackwards => JupiterSwapError::MathOverflow,
        ReconcileFault::UnexpectedInputAmount => JupiterSwapError::UnexpectedInputAmount,
        ReconcileFault::SlippageExceeded => JupiterSwapError::SlippageExceeded,
    }
}

impl JupiterSwap {
    /// The internal accounts that no forwarded call may be given: the fee-collection
    /// account, the protocol-wide settings, and the principal's counters.
    pub open spec fn protected_accounts(&self) -> Seq<Address> {
        seq![self.vault_ata.key, self.global_state_key, self.user_state_key]
    }

    /// What `validate` returns: the first of the account rules that is broken.
    pub open spec fn spec_validate(&self) -> Result<(), JupiterSwapError> {
        if self.user_input_ata.owner != self.user {
            Err(JupiterSwapError::InvalidTokenAccountOwner)
        } else if self.user_input_ata.mint != self.input_mint {
            Err(JupiterSwapError::MintMismatch)
        } else if self.user_output_ata.owner != self.user {
            Err(JupiterSwapError::InvalidTokenAccountOwner)
        } else if self.user_output_ata.mint != self.output_mint {
            Err(JupiterSwapError::MintMismatch)
        } else {
            Ok(())
        }
    }

    /// The fee on a swap of `amount_in`, or the reason the swap is turned down: the
    /// balance, then the amount, then the account rules, then the fee rate.
    pub open spec fn spec_quote(&self, amount_in: u64) -> Result<u64, JupiterSwapError> {
        if self.user_input_ata.amount < amount_in {
            Err(JupiterSwapError::InsufficientBalance)
        } else if amount_in == 0 {
            Err(JupiterSwapError::InvalidAmount)
        } else {
            match self.spec_validate() {
                Err(e) => Err(e),
                Ok(_) => fee_result(amount_in, self.global_state.fee_rate),
            }
        }
    }

    /// The record with the principal's counters advanced by one swap of `amount_in`.
    pub open spec fn after_swap(self, amount_in: u64) -> JupiterSwap {
        JupiterSwap { user_state: self.user_state.after_swap(amount_in), ..self }
    }

    /// The outcome of a failed step: the accounts as they were, the swap aborted.
    pub open spec fn aborted(self, state: SwapState, error: JupiterSwapError) -> (
        JupiterSwap,
        SwapState,
        SwapActionView<JupiterSwapEvent, JupiterSwapError>,
    ) {
        (self, state.at(SwapStage::Aborted), SwapActionView::Abort { error })
    }

    /// One step of a guarded swap: the accounts, the state and the action that follow
    /// from the accounts and the state before it.
    ///
    /// `target` is the configured swap target. `amount_in` and `min_amount_out` are read
    /// when the swap is validated and remembered from then on; `swap_ix` and
    /// `accounts_meta` are read when the call is built; `timestamp` when the swap commits.
    pub open spec fn spec_step(
        self,
        state: SwapState,
        swap_ix: Seq<u8>,
        accounts_meta: Seq<AccountMetaData>,
        amount_in: u64,
        min_amount_out: u64,
        timestamp: i64,
        target: Option<Address>,
    ) -> (JupiterSwap, SwapState, SwapActionView<JupiterSwapEvent, JupiterSwapError>) {
        match state.stage {
            SwapStage::Validating => match self.spec_quote(amount_in) {
                Err(error) => self.aborted(state, error),
                Ok(fee) => (
                    self,
                    SwapState {
                        stage: SwapStage::FeeCollected,
                        amount_in,
                        min_amount_out,
                        fee,
                        swap_amount: (amount_in - fee) as u64,
                        input_balance_before: self.user_input_ata.amount,
                        output_balance_before: self.user_output_ata.amount,
                        actual_input_used: 0,
                        actual_output_received: 0,
                    },
                    if fee > 0 {
                        SwapActionView::TransferFee {
                            transfer: Transfer {
                                from: self.user_input_ata.key,
                                to: self.vault_ata.key,
                                authority: self.user,
                                amount: fee,
                            },
                        }
                    } else {
                        SwapActionView::Continue
                    },
                ),
            },
            SwapStage::FeeCollected => if touches_protected(
                self.remaining_accounts@,
                self.protected_accounts(),
            ) || touches_protected(meta_keys(accounts_meta), self.protected_accounts()) {
                self.aborted(state, JupiterSwapError::ProtectedAccountInRemainingAccounts)
            } else {
                (self, state.at(SwapStage::AllowListChecked), SwapActionView::Continue)
            },
            SwapStage::AllowListChecked => if target != Some(self.jupiter_program) {
                self.aborted(state, JupiterSwapError::InvalidJupiterProgram)
            } else {
                (
                    self,
                    state.at(SwapStage::Forwarded),
                    SwapActionView::Invoke {
                        instruction: SwapInstructionView {
                            program_id: self.jupiter_program,
                            accounts: accounts_meta,
                            data: swap_ix,
                        },
                        signer: None,
                    },
                )
            },
            SwapStage::Forwarded => match spec_reconcile(
                state.input_balance_before,
                self.user_input_ata.amount,
                state.output_balance_before,
                self.user_output_ata.amount,
                state.swap_amount,
                state.min_amount_out,
            ) {
                Err(fault) => self.aborted(state, swap_fault_error(fault)),
                Ok((used, received)) => (
                    self,
                    SwapState {
                        stage: SwapStage::Reconciled,
                        actual_input_used: used,
                        actual_output_received: received,
                        ..state
                    },
                    SwapActionView::Continue,
                ),
            },
            SwapStage::Reconciled => if !self.user_state.can_count(state.amount_in) {
                self.aborted(state, JupiterSwapError::MathOverflow)
            } else {
                (
                    self.after_swap(state.amount_in),
                    state.at(SwapStage::Committed),
                    SwapActionView::Emit {
                        event: JupiterSwapEvent {
                            user: self.user,
                            input_mint: self.input_mint,
                            output_mint: self.output_mint,
                            amount_in: state.amount_in,
                            fee: state.fee,
                            timestamp,
                        },
                    },
                )
            },
            SwapStage::Committed => (self, state, SwapActionView::Halt),
            SwapStage::Aborted => (self, state, SwapActionView::Halt),
        }
    }

    /// Checks that the token accounts are the principal's own and hold the declared assets.
    pub fn validate(&self) -> (r: Result<(), JupiterSwapError>)
        ensures
            r == self.spec_validate(),
    {
        if self.user_input_ata.owner != self.user {
            return Err(JupiterSwapError::InvalidTokenAccountOwner);
        }
        if self.user_input_ata.mint != self.input_mint {
            return Err(JupiterSwapError::MintMismatch);
        }
        if self.user_output_ata.owner != self.user {
            return Err(JupiterSwapError::InvalidTokenAccountOwner);
        }
        if self.user_output_ata.mint != self.output_mint {
            return Err(JupiterSwapError::MintMismatch);
        }
        Ok(())
    }

    /// Prices a swap of `amount_in` once it may go ahead: the balance covers the amount, the
    /// amount is not zero, the accounts belong together, and the fee rate is valid.
    pub fn quote(&self, amount_in: u64) -> (r: Result<u64, JupiterSwapError>)
        ensures
            r == self.spec_quote(amount_in),
            r matches Ok(fee) ==> fee <= amount_in,
    {
        if self.user_input_ata.amount < amount_in {
            return Err(JupiterSwapError::InsufficientBalance);
        }
        if amount_in == 0 {
            return Err(JupiterSwapError::InvalidAmount);
        }
        match self.validate() {
            Err(e) => {
                return Err(e);
            },
            Ok(_) => {},
        }
        calculate_fee(amount_in, self.global_state.fee_rate)
    }

    /// The protected accounts, as a list.
    pub fn protected_account_list(&self) -> (r: Vec<Address>)
        ensures
            r@ == self.protected_accounts(),
    {
        let mut protected: Vec<Address> = Vec::new();
        protected.push(self.vault_ata.key);
        protected.push(self.global_state_key);
        protected.push(self.user_state_key);
        assert(protected@ =~= self.protected_accounts());
        protected
    }
}

/// The error that a reconciliation fault is reported as.
fn fault_to_error(fault: ReconcileFault) -> (r: JupiterSwapError)
    ensures
        r == swap_fault_error(fault),
{
    match fault {
        ReconcileFault::BalanceMovedBackwards => JupiterSwapError::MathOverflow,
        ReconcileFault::UnexpectedInputAmount => JupiterSwapError::UnexpectedInputAmount,
        ReconcileFault::SlippageExceeded => JupiterSwapError::SlippageExceeded,
    }
}

/// Takes a user-initiated guarded swap one step further, against the swap target
/// `target`.
///
/// The host calls this in a loop, starting from `SwapState::new()`: it performs the
/// action returned, refreshes the balances in `ctx` after an invocation, and calls
/// again with the state returned, until the action is `Emit` or `Abort`. Only the step
/// that commits changes `ctx`; a step that aborts leaves it as it was.
pub fn jupiter_swap_step(
    ctx: &mut JupiterSwap,
    state: SwapState,
    swap_ix: &Vec<u8>,
    accounts_meta: &Vec<AccountMetaData>,
    amount_in: u64,
    min_amount_out: u64,
    timestamp: i64,
    target: Option<Address>,
) -> (r: (SwapState, SwapAction<JupiterSwapEvent, JupiterSwapError>))
    ensures
        (*final(ctx), r.0, r.1@) == old(ctx).spec_step(
            state,
            swap_ix@,
            accounts_meta@,
            amount_in,
            min_amount_out,
            timestamp,
            target,
        ),
{
    let aborted = SwapState { stage: SwapStage::Aborted, ..state };
    match state.stage {
        SwapStage::Validating => {
            let fee = match ctx.quote(amount_in) {
                Err(error) => {
                    return (aborted, SwapAction::Abort { error });
                },
                Ok(fee) => fee,
            };
            let swap_amount = amount_in - fee;
            let next = SwapState {
                stage: SwapStage::FeeCollected,
                amount_in,
                min_amount_out,
                fee,
                swap_amount,
                input_balance_before: ctx.user_input_ata.amount,
                output_balance_before: ctx.user_output_ata.amount,
                actual_input_used: 0,
                actual_output_received: 0,
            };
            if fee > 0 {
                let transfer = Transfer {
                    from: ctx.user_input_ata.key,
                    to: ctx.vault_ata.key,
                    authority: ctx.user,
                    amount: fee,
                };
                (next, SwapAction::TransferFee { transfer })
            } else {
                (next, SwapAction::Continue)
            }
        },
        SwapStage::FeeCollected => {
            let protected = ctx.protected_account_list();
            if contains_protected_account(&ctx.remaining_accounts, &protected)
                || declares_protected_account(accounts_meta, &protected) {
                return (
                    aborted,
                    SwapAction::Abort {
                        error: JupiterSwapError::ProtectedAccountInRemainingAccounts,
                    },
                );
            }
            (SwapState { stage: SwapStage::AllowListChecked, ..state }, SwapAction::Continue)
        },
        SwapStage::AllowListChecked => {
            let matches_target = match target {
                Some(configured) => configured == ctx.jupiter_program,
                None => false,
            };
            if !matches_target {
                return (
                    aborted,
                    SwapAction::Abort { error: JupiterSwapError::InvalidJupiterProgram },
                );
            }
            let instruction = SwapInstruction {
                program_id: ctx.jupiter_program,
                accounts: copy_metas(accounts_meta),
                data: copy_bytes(swap_ix),
            };
            (
                SwapState { stage: SwapStage::Forwarded, ..state },
                SwapAction::Invoke { instruction, signer: None },
            )
        },
        SwapStage::Forwarded => {
            match reconcile(
                state.input_balance_before,
                ctx.user_input_ata.amount,
                state.output_balance_before,
                ctx.user_output_ata.amount,
                state.swap_amount,
                state.min_amount_out,
            ) {
                Err(fault) => (aborted, SwapAction::Abort { error: fault_to_error(fault) }),
                Ok((used, received)) => (
                    SwapState {
                        stage: SwapStage::Reconciled,
                        actual_input_used: used,
                        actual_output_received: received,
                        ..state
                    },
                    SwapAction::Continue,
                ),
            }
        },
        SwapStage::Reconciled => {
            let total_volume = match ctx.user_state.total_volume.checked_add(state.amount_in) {
                None => {
                    return (
                        aborted,
                        SwapAction::Abort { error: JupiterSwapError::MathOverflow },
                    );
                },
                Some(v) => v,
            };
            let swaps = match ctx.user_state.swaps.checked_add(1) {
                None => {
                    return (
                        aborted,
                        SwapAction::Abort { error: JupiterSwapError::MathOverflow },
                    );
                },
                Some(n) => n,
            };
            ctx.user_state.total_volume = total_volume;
            ctx.user_state.swaps = swaps;
            let event = JupiterSwapEvent {
                user: ctx.user,
                input_mint: ctx.input_mint,
                output_mint: ctx.output_mint,
                amount_in: state.amount_in,
                fee: state.fee,
                timestamp,
            };
            (SwapState { stage: SwapStage::Committed, ..state }, SwapAction::Emit { event })
        },
        SwapStage::Committed => (state, SwapAction::Halt),
        SwapStage::Aborted => (state, SwapAction::Halt),
    }
}

/// Takes a user-initiated guarded swap one step further, against the swap target that
/// `Jupiter` names. See `jupiter_swap_step`.
pub fn jupiter_swap_handler(
    ctx: &mut JupiterSwap,
    state: SwapState,
    swap_ix: &Vec<u8>,
    accounts_meta: &Vec<AccountMetaData>,
    amount_in: u64,
    min_amount_out: u64,
    timestamp: i64,
) -> (r: (SwapState, SwapAction<JupiterSwapEvent, JupiterSwapError>))
    ensures
        (*final(ctx), r.0, r.1@) == old(ctx).spec_step(
            state,
            swap_ix@,
            accounts_meta@,
            amount_in,
            min_amount_out,
            timestamp,
            Jupiter::spec_id(),
        ),
{
    let target = Jupiter::id();
    jupiter_swap_step(
        ctx,
        state,
        swap_ix,
        accounts_meta,
        amount_in,
        min_amount_out,
        timestamp,
        target,
    )
}

} // verus!
