use crate::address::Address;
use crate::error::VaultError;
use crate::events::StrategyExecutedEvent;
use crate::guard::{
    build_writable_metas, contains_protected_account, copy_bytes, reconcile, spec_reconcile,
    touches_protected, writable_metas, ReconcileFault, SwapAction, SwapActionView,
    SwapInstruction, SwapInstructionView, SwapStage, SwapState,
};
use crate::instructions::jupiter_swap::Jupiter;
use crate::instructions::vault::JupiterStrategyType;
use crate::state::{GlobalState, UserState, Vault};
use crate::token::{TokenAccount, Transfer};
use crate::utils::fee::{fee_of, BPS_DENOMINATOR};
use vstd::prelude::*;

verus! {

/// The accounts a vault-initiated strategy works on.
#[derive(Debug, PartialEq, Eq)]
pub struct ExecuteStrategy {
    /// The caller, who signs and must be the vault's authority.
    pub authority: Address,
    /// Address of the vault record, which also signs for the vault's escrow.
    pub vault_key: Address,
    pub vault: Vault,
    /// Address of the protocol-wide settings.
    pub global_state_key: Address,
    pub global_state: GlobalState,
    /// Address of the counters the vault keeps of its own swaps.
    pub vault_user_state_key: Address,
    pub vault_user_state: UserState,
    /// The vault's escrow of the input asset, as last read.
    pub vault_input_ata: TokenAccount,
    /// The vault's escrow of the output asset, as last read.
    pub vault_output_ata: TokenAccount,
    /// The protocol's fee-collection account for the input asset.
    pub fee_vault_ata: TokenAccount,
    pub input_mint: Address,
    pub output_mint: Address,
    /// The program the caller asks to have invoked.
    pub jupiter_program: Address,
    /// The accounts handed through to the invoked program.
    pub remaining_accounts: Vec<Address>,
}

/// The error a vault-initiated swap reports for a reconciliation fault.
pub open spec fn strategy_fault_error(fault: ReconcileFault) -> VaultError {
    match fault {
        ReconcileFault::BalanceMovedBackwards => VaultError::MathOverflow,
        ReconcileFault::UnexpectedInputAmount => VaultError::UnexpectedInputAmount,
        ReconcileFault::SlippageExceeded => VaultError::SlippageExceeded,
    }
}

/// What the vault's `calculate_fee` returns: the protocol fee, refused under the vault's
/// own error for a rate above one hundred percent.
pub open spec fn vault_fee_result(amount: u64, fee_rate_bps: u16) -> Result<u64, VaultError> {
    if fee_rate_bps > BPS_DENOMINATOR {
        Err(VaultError::InvalidFeeRate)
    } else {
        Ok(fee_of(amount as int, fee_rate_bps as int) as u64)
    }
}

/// The vault's totals after a swap consumed `input_used` of its assets, or the refusal
/// where that is more than it accounts for.
pub open spec fn spec_vault_accounting(vault: Vault, input_used: u64) -> Result<
    Vault,
    VaultError,
> {
    if input_used > vault.total_assets {
        Err(VaultError::MathOverflow)
    } else {
        Ok(Vault { total_assets: (vault.total_assets - input_used) as u64, ..vault })
    }
}

impl ExecuteStrategy {
    /// The internal accounts that no forwarded call may be given: the fee-collection
    /// account, the protocol-wide settings, the vault's counters, and the vault itself.
    pub open spec fn protected_accounts(&self) -> Seq<Address> {
        seq![
            self.fee_vault_ata.key,
            self.global_state_key,
            self.vault_user_state_key,
            self.vault_key,
        ]
    }

    /// What `validate` returns: the first of the account rules that is broken.
    pub open spec fn spec_validate(&self) -> Result<(), VaultError> {
        if self.authority != self.vault.authority {
            Err(VaultError::Unauthorized)
        } else if !self.vault.strategy_enabled {
            Err(VaultError::StrategyDisabled)
        } else if self.vault_input_ata.mint != self.input_mint {
            Err(VaultError::MintMismatch)
        } else if self.vault_output_ata.owner != self.vault_key {
            Err(VaultError::InvalidOwner)
        } else if self.vault_output_ata.mint != self.output_mint {
            Err(VaultError::MintMismatch)
        } else {
            Ok(())
        }
    }

    /// The fee on a swap of `amount`, or the reason the swap is turned down: the escrow
    /// balance, then the amount, then the account rules, then the fee rate.
    pub open spec fn spec_quote(&self, amount: u64) -> Result<u64, VaultError> {
        if self.vault_input_ata.amount < amount {
            Err(VaultError::InsufficientBalance)
        } else if amount == 0 {
            Err(VaultError::InvalidAmount)
        } else {
            match self.spec_validate() {
                Err(e) => Err(e),
                Ok(_) => vault_fee_result(amount, self.global_state.fee_rate),
            }
        }
    }

    /// The accounts after a committed swap: the vault's counters advanced by one swap of
    /// `amount`, and its assets reduced by what the call consumed.
    pub open spec fn after_swap(self, amount: u64, input_used: u64) -> ExecuteStrategy {
        ExecuteStrategy {
            vault_user_state: self.vault_user_state.after_swap(amount),
            vault: Vault {
                total_assets: (self.vault.total_assets - input_used) as u64,
                ..self.vault
            },
            ..self
        }
    }

    /// The outcome of a failed step: the accounts as they were, the swap aborted.
    pub open spec fn aborted(self, state: SwapState, error: VaultError) -> (
        ExecuteStrategy,
        SwapState,
        SwapActionView<StrategyExecutedEvent, VaultError>,
    ) {
        (self, state.at(SwapStage::Aborted), SwapActionView::Abort { error })
    }

    /// One step of a vault-initiated guarded swap: the accounts, the state and the
    /// action that follow from the accounts and the state before it.
    ///
    /// `target` is the configured swap target. `amount` and `min_output` are read when
    /// the swap is validated and remembered from then on; `swap_ix_data` and
    /// `accounts_meta` are read when the call is built; `timestamp` when the swap commits.
    pub open spec fn spec_swap_step(
        self,
        state: SwapState,
        amount: u64,
        min_output: u64,
        swap_ix_data: Seq<u8>,
        accounts_meta: Seq<Address>,
        timestamp: i64,
        target: Option<Address>,
    ) -> (ExecuteStrategy, SwapState, SwapActionView<StrategyExecutedEvent, VaultError>) {
        match state.stage {
            SwapStage::Validating => match self.spec_quote(amount) {
                Err(error) => self.aborted(state, error),
                Ok(fee) => (
                    self,
                    SwapState {
                        stage: SwapStage::FeeCollected,
                        amount_in: amount,
                        min_amount_out: min_output,
                        fee,
                        swap_amount: (amount - fee) as u64,
                        input_balance_before: self.vault_input_ata.amount,
                        output_balance_before: self.vault_output_ata.amount,
                        actual_input_used: 0,
                        actual_output_received: 0,
                    },
                    if fee > 0 {
                        SwapActionView::TransferFee {
                            transfer: Transfer {
                                from: self.vault_input_ata.key,
                                to: self.fee_vault_ata.key,
                                authority: self.vault_key,
                                amount: fee,
                            },
                        }
                    } else {
                        SwapActionView::Continue
                    },
                ),
            },
            SwapStage::FeeCollected => if touches_protected(
                self.remaining_accounts@,
                self.protected_accounts(),
            ) || touches_protected(accounts_meta, self.protected_accounts()) {
                self.aborted(state, VaultError::ProtectedAccountInRemainingAccounts)
            } else {
                (self, state.at(SwapStage::AllowListChecked), SwapActionView::Continue)
            },
            SwapStage::AllowListChecked => if target != Some(self.jupiter_program) {
                self.aborted(state, VaultError::InvalidJupiterProgram)
            } else {
                (
                    self,
                    state.at(SwapStage::Forwarded),
                    SwapActionView::Invoke {
                        instruction: SwapInstructionView {
                            program_id: self.jupiter_program,
                            accounts: writable_metas(accounts_meta),
                            data: swap_ix_data,
                        },
                        signer: Some(self.vault_key),
                    },
                )
            },
            SwapStage::Forwarded => match spec_reconcile(
                state.input_balance_before,
                self.vault_input_ata.amount,
                state.output_balance_before,
                self.vault_output_ata.amount,
                state.swap_amount,
                state.min_amount_out,
            ) {
                Err(fault) => self.aborted(state, strategy_fault_error(fault)),
                Ok((used, received)) => (
                    self,
                    SwapState {
                        stage: SwapStage::Reconciled,
                        actual_input_used: used,
                        actual_output_received: received,
                        ..state
                    },
                    SwapActionView::Continue,
                ),
            },
            SwapStage::Reconciled => if !self.vault_user_state.can_count(state.amount_in)
                || state.actual_input_used > self.vault.total_assets {
                self.aborted(state, VaultError::MathOverflow)
            } else {
                (
                    self.after_swap(state.amount_in, state.actual_input_used),
                    state.at(SwapStage::Committed),
                    SwapActionView::Emit {
                        event: StrategyExecutedEvent {
                            vault: self.vault_key,
                            strategy_type: JupiterStrategyType::JupiterSwap,
                            amount: state.amount_in,
                            input_used: state.actual_input_used,
                            output_received: state.actual_output_received,
                            timestamp,
                        },
                    },
                )
            },
            SwapStage::Committed => (self, state, SwapActionView::Halt),
            SwapStage::Aborted => (self, state, SwapActionView::Halt),
        }
    }

    /// One step of a strategy of the given type.
    ///
    /// A strategy that has not begun is first held against the account rules and the
    /// vault's accounted assets. A swap strategy then proceeds as a guarded swap; the
    /// other strategies have nothing to do yet and end at once, leaving everything as
    /// it was.
    pub open spec fn spec_strategy_step(
        self,
        state: SwapState,
        strategy_type: JupiterStrategyType,
        amount: u64,
        min_output: u64,
        swap_ix_data: Seq<u8>,
        accounts_meta: Seq<Address>,
        timestamp: i64,
        target: Option<Address>,
    ) -> (ExecuteStrategy, SwapState, SwapActionView<StrategyExecutedEvent, VaultError>) {
        if state.is_terminal() {
            (self, state, SwapActionView::Halt)
        } else if state.stage == SwapStage::Validating && self.spec_validate() is Err {
            self.aborted(state, self.spec_validate()->Err_0)
        } else if state.stage == SwapStage::Validating && self.vault.total_assets < amount {
            self.aborted(state, VaultError::InsufficientAssets)
        } else if strategy_type == JupiterStrategyType::JupiterSwap {
            self.spec_swap_step(
                state,
                amount,
                min_output,
                swap_ix_data,
                accounts_meta,
                timestamp,
                target,
            )
        } else {
            (self, state.at(SwapStage::Committed), SwapActionView::Halt)
        }
    }

    /// Checks that the caller is the vault's authority, that strategies are switched on,
    /// and that the escrow accounts hold the declared assets and belong to the vault.
    pub fn validate(&self) -> (r: Result<(), VaultError>)
        ensures
            r == self.spec_validate(),
    {
        if self.authority != self.vault.authority {
            return Err(VaultError::Unauthorized);
        }
        if !self.vault.strategy_enabled {
            return Err(VaultError::StrategyDisabled);
        }
        if self.vault_input_ata.mint != self.input_mint {
            return Err(VaultError::MintMismatch);
        }
        if self.vault_output_ata.owner != self.vault_key {
            return Err(VaultError::InvalidOwner);
        }
        if self.vault_output_ata.mint != self.output_mint {
            return Err(VaultError::MintMismatch);
        }
        Ok(())
    }

    /// Prices a swap of `amount` once it may go ahead: the escrow covers the amount, the
    /// amount is not zero, the accounts belong together, and the fee rate is valid.
    pub fn quote(&self, amount: u64) -> (r: Result<u64, VaultError>)
        ensures
            r == self.spec_quote(amount),
            r matches Ok(fee) ==> fee <= amount,
    {
        if self.vault_input_ata.amount < amount {
            return Err(VaultError::InsufficientBalance);
        }
        if amount == 0 {
            return Err(VaultError::InvalidAmount);
        }
        match self.validate() {
            Err(e) => {
                return Err(e);
            },
            Ok(_) => {},
        }
        calculate_fee(amount, self.global_state.fee_rate)
    }

    /// The protected accounts, as a list.
    pub fn protected_account_list(&self) -> (r: Vec<Address>)
        ensures
            r@ == self.protected_accounts(),
    {
        let mut protected: Vec<Address> = Vec::new();
        protected.push(self.fee_vault_ata.key);
        protected.push(self.global_state_key);
        protected.push(self.vault_user_state_key);
        protected.push(self.vault_key);
        assert(protected@ =~= self.protected_accounts());
        protected
    }
}

/// The error that a reconciliation fault is reported as.
fn fault_to_error(fault: ReconcileFault) -> (r: VaultError)
    ensures
        r == strategy_fault_error(fault),
{
    match fault {
        ReconcileFault::BalanceMovedBackwards => VaultError::MathOverflow,
        ReconcileFault::UnexpectedInputAmount => VaultError::UnexpectedInputAmount,
        ReconcileFault::SlippageExceeded => VaultError::SlippageExceeded,
    }
}

/// Computes the protocol fee on `amount` at `fee_rate_bps` basis points, rounded up,
/// for a vault-initiated swap.
pub fn calculate_fee(amount: u64, fee_rate_bps: u16) -> (r: Result<u64, VaultError>)
    ensures
        r == vault_fee_result(amount, fee_rate_bps),
        r matches Ok(fee) ==> fee <= amount,
{
    match crate::utils::fee::calculate_fee(amount, fee_rate_bps) {
        Ok(fee) => Ok(fee),
        Err(_) => Err(VaultError::InvalidFeeRate),
    }
}

/// Takes out of the vault's accounted assets what a swap consumed. The output received
/// is held by the escrow account and is not added to the accounted assets.
pub fn update_vault_accounting(vault: &mut Vault, input_used: u64, _output_received: u64) -> (r:
    Result<(), VaultError>)
    ensures
        r is Ok <==> input_used <= old(vault).total_assets,
        r matches Err(e) ==> e == VaultError::MathOverflow && *final(vault) == *old(vault),
        r is Ok ==> spec_vault_accounting(*old(vault), input_used) == Ok::<Vault, VaultError>(
            *final(vault),
        ) && final(vault).total_assets == old(vault).total_assets - input_used,
{
    match vault.total_assets.checked_sub(input_used) {
        None => Err(VaultError::MathOverflow),
        Some(total_assets) => {
            vault.total_assets = total_assets;
            Ok(())
        },
    }
}

/// Takes a vault-initiated guarded swap one step further, against the swap target
/// `target`.
///
/// The host calls this in a loop, starting from `SwapState::new()`: it performs the
/// action returned, refreshes the balances in `ctx` after an invocation, and calls
/// again with the state returned, until the action is `Emit`, `Abort` or `Halt`. Only
/// the step that commits changes `ctx`; a step that aborts leaves it as it was.
pub fn execute_jupiter_swap_step(
    ctx: &mut ExecuteStrategy,
    state: SwapState,
    amount: u64,
    min_output: u64,
    swap_ix_data: &Vec<u8>,
    accounts_meta: &Vec<Address>,
    timestamp: i64,
    target: Option<Address>,
) -> (r: (SwapState, SwapAction<StrategyExecutedEvent, VaultError>))
    ensures
        (*final(ctx), r.0, r.1@) == old(ctx).spec_swap_step(
            state,
            amount,
            min_output,
            swap_ix_data@,
            accounts_meta@,
            timestamp,
            target,
        ),
{
    let aborted = SwapState { stage: SwapStage::Aborted, ..state };
    match state.stage {
        SwapStage::Validating => {
            let fee = match ctx.quote(amount) {
                Err(error) => {
                    return (aborted, SwapAction::Abort { error });
                },
                Ok(fee) => fee,
            };
            let swap_amount = amount - fee;
            let next = SwapState {
                stage: SwapStage::FeeCollected,
                amount_in: amount,
                min_amount_out: min_output,
                fee,
                swap_amount,
                input_balance_before: ctx.vault_input_ata.amount,
                output_balance_before: ctx.vault_output_ata.amount,
                actual_input_used: 0,
                actual_output_received: 0,
            };
            if fee > 0 {
                let transfer = Transfer {
                    from: ctx.vault_input_ata.key,
                    to: ctx.fee_vault_ata.key,
                    authority: ctx.vault_key,
                    amount: fee,
                };
                (next, SwapAction::TransferFee { transfer })
            } else {
                (next, SwapAction::Continue)
            }
        },
        SwapStage::FeeCollected => {
            let protected = ctx.protected_account_list();
            if contains_protected_account(&ctx.remaining_accounts, &protected)
                || contains_protected_account(accounts_meta, &protected) {
                return (
                    aborted,
                    SwapAction::Abort { error: VaultError::ProtectedAccountInRemainingAccounts },
                );
            }
            (SwapState { stage: SwapStage::AllowListChecked, ..state }, SwapAction::Continue)
        },
        SwapStage::AllowListChecked => {
            let matches_target = match target {
                Some(configured) => configured == ctx.jupiter_program,
                None => false,
            };
            if !matches_target {
                return (aborted, SwapAction::Abort { error: VaultError::InvalidJupiterProgram });
            }
            let instruction = SwapInstruction {
                program_id: ctx.jupiter_program,
                accounts: build_writable_metas(accounts_meta),
                data: copy_bytes(swap_ix_data),
            };
            (
                SwapState { stage: SwapStage::Forwarded, ..state },
                SwapAction::Invoke { instruction, signer: Some(ctx.vault_key) },
            )
        },
        SwapStage::Forwarded => {
            match reconcile(
                state.input_balance_before,
                ctx.vault_input_ata.amount,
                state.output_balance_before,
                ctx.vault_output_ata.amount,
                state.swap_amount,
                state.min_amount_out,
            ) {
                Err(fault) => (aborted, SwapAction::Abort { error: fault_to_error(fault) }),
                Ok((used, received)) => (
                    SwapState {
                        stage: SwapStage::Reconciled,
                        actual_input_used: used,
                        actual_output_received: received,
                        ..state
                    },
                    SwapAction::Continue,
                ),
            }
        },
        SwapStage::Reconciled => {
            let total_volume = match ctx.vault_user_state.total_volume.checked_add(
                state.amount_in,
            ) {
                None => {
                    return (aborted, SwapAction::Abort { error: VaultError::MathOverflow });
                },
                Some(v) => v,
            };
            let swaps = match ctx.vault_user_state.swaps.checked_add(1) {
                None => {
                    return (aborted, SwapAction::Abort { error: VaultError::MathOverflow });
                },
                Some(n) => n,
            };
            match update_vault_accounting(
                &mut ctx.vault,
                state.actual_input_used,
                state.actual_output_received,
            ) {
                Err(error) => {
                    return (aborted, SwapAction::Abort { error });
                },
                Ok(_) => {},
            }
            ctx.vault_user_state.total_volume = total_volume;
            ctx.vault_user_state.swaps = swaps;
            let event = StrategyExecutedEvent {
                vault: ctx.vault_key,
                strategy_type: JupiterStrategyType::JupiterSwap,
                amount: state.amount_in,
                input_used: state.actual_input_used,
                output_received: state.actual_output_received,
                timestamp,
            };
            (SwapState { stage: SwapStage::Committed, ..state }, SwapAction::Emit { event })
        },
        SwapStage::Committed => (state, SwapAction::Halt),
        SwapStage::Aborted => (state, SwapAction::Halt),
    }
}

/// Takes a vault-initiated guarded swap one step further, against the swap target that
/// `Jupiter` names. See `execute_jupiter_swap_step`.
pub fn execute_jupiter_swap_inline(
    ctx: &mut ExecuteStrategy,
    state: SwapState,
    amount: u64,
    min_output: u64,
    swap_ix_data: &Vec<u8>,
    accounts_meta: &Vec<Address>,
    timestamp: i64,
) -> (r: (SwapState, SwapAction<StrategyExecutedEvent, VaultError>))
    ensures
        (*final(ctx), r.0, r.1@) == old(ctx).spec_swap_step(
            state,
            amount,
            min_output,
            swap_ix_data@,
            accounts_meta@,
            timestamp,
            Jupiter::spec_id(),
        ),
{
    let target = Jupiter::id();
    execute_jupiter_swap_step(
        ctx,
        state,
        amount,
        min_output,
        swap_ix_data,
        accounts_meta,
        timestamp,
        target,
    )
}

/// Takes a strategy of the given type one step further, against the swap target
/// `target`. See `ExecuteStrategy::spec_strategy_step` and `execute_jupiter_swap_step`.
pub fn execute_strategy_step(
    ctx: &mut ExecuteStrategy,
    state: SwapState,
    strategy_type: JupiterStrategyType,
    amount: u64,
    min_output: u64,
    swap_ix_data: &Vec<u8>,
    accounts_meta: &Vec<Address>,
    timestamp: i64,
    target: Option<Address>,
) -> (r: (SwapState, SwapAction<StrategyExecutedEvent, VaultError>))
    ensures
        (*final(ctx), r.0, r.1@) == old(ctx).spec_strategy_step(
            state,
            strategy_type,
            amount,
            min_output,
            swap_ix_data@,
            accounts_meta@,
            timestamp,
            target,
        ),
{
    match state.stage {
        SwapStage::Committed => {
            return (state, SwapAction::Halt);
        },
        SwapStage::Aborted => {
            return (state, SwapAction::Halt);
        },
        SwapStage::Validating => {
            let aborted = SwapState { stage: SwapStage::Aborted, ..state };
            match ctx.validate() {
                Err(error) => {
                    return (aborted, SwapAction::Abort { error });
                },
                Ok(_) => {},
            }
            if ctx.vault.total_assets < amount {
                return (aborted, SwapAction::Abort { error: VaultError::InsufficientAssets });
            }
        },
        _ => {},
    }
    match strategy_type {
        JupiterStrategyType::JupiterSwap => execute_jupiter_swap_step(
            ctx,
            state,
            amount,
            min_output,
            swap_ix_data,
            accounts_meta,
            timestamp,
            target,
        ),
        JupiterStrategyType::Rebalance => (
            SwapState { stage: SwapStage::Committed, ..state },
            SwapAction::Halt,
        ),
        JupiterStrategyType::Yield => (
            SwapState { stage: SwapStage::Committed, ..state },
            SwapAction::Halt,
        ),
    }
}

/// Takes a strategy of the given type one step further, against the swap target that
/// `Jupiter` names. See `execute_strategy_step`.
pub fn execute_strategy(
    ctx: &mut ExecuteStrategy,
    state: SwapState,
    strategy_type: JupiterStrategyType,
    amount: u64,
    min_output: u64,
    swap_ix_data: &Vec<u8>,
    accounts_meta: &Vec<Address>,
    timestamp: i64,
) -> (r: (SwapState, SwapAction<StrategyExecutedEvent, VaultError>))
    ensures
        (*final(ctx), r.0, r.1@) == old(ctx).spec_strategy_step(
            state,
            strategy_type,
            amount,
            min_output,
            swap_ix_data@,
            accounts_meta@,
            timestamp,
            Jupiter::spec_id(),
        ),
{
    let target = Jupiter::id();
    execute_strategy_step(
        ctx,
        state,
        strategy_type,
        amount,
        min_output,
        swap_ix_data,
        accounts_meta,
        timestamp,
        target,
    )
}

} // verus!
