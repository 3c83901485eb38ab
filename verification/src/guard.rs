use crate::address::Address;
use crate::token::Transfer;
use vstd::prelude::*;

verus! {

/// One account in the account list of a forwarded call, with what the callee may do to it.
#[derive(Clone, Copy, Debug, PartialEq, Eq)]
pub struct AccountMetaData {
    pub pubkey: Address,
    pub is_writable: bool,
    pub is_signer: bool,
}

/// A call to be forwarded to an external program: the program's identity, the accounts
/// it is given, and a payload that is passed on unread.
#[derive(Debug, PartialEq, Eq)]
pub struct SwapInstruction {
    pub program_id: Address,
    pub accounts: Vec<AccountMetaData>,
    pub data: Vec<u8>,
}

/// The contents of a `SwapInstruction`.
pub ghost struct SwapInstructionView {
    pub program_id: Address,
    pub accounts: Seq<AccountMetaData>,
    pub data: Seq<u8>,
}

impl View for SwapInstruction {
    type V = SwapInstructionView;

    open spec fn view(&self) -> SwapInstructionView {
        SwapInstructionView {
            program_id: self.program_id,
            accounts: self.accounts@,
            data: self.data@,
        }
    }
}

/// Where a guarded swap stands.
#[derive(Clone, Copy, Debug, PartialEq, Eq, Structural)]
pub enum SwapStage {
    /// Nothing has been checked yet.
    Validating,
    /// The request is valid and the fee is fixed; its transfer has been asked for.
    FeeCollected,
    /// No protected account is among the call's targets.
    AllowListChecked,
    /// The call has been handed over for invocation.
    Forwarded,
    /// The balances after the call are within what was authorised.
    Reconciled,
    /// The counters are updated; the swap is final.
    Committed,
    /// A step failed; nothing of the swap may remain.
    Aborted,
}

/// The state of one guarded swap between two steps.
#[derive(Clone, Copy, Debug, PartialEq, Eq)]
pub struct SwapState {
    pub stage: SwapStage,
    /// Amount the principal put up, fee included.
    pub amount_in: u64,
    /// Least output the principal accepts.
    pub min_amount_out: u64,
    /// Protocol fee taken from `amount_in`.
    pub fee: u64,
    /// The most that may leave the input escrow: `amount_in - fee`.
    pub swap_amount: u64,
    /// Input escrow balance when the swap began.
    pub input_balance_before: u64,
    /// Output escrow balance when the swap began.
    pub output_balance_before: u64,
    /// Input that has left the input escrow since the swap began, once reconciled. The
    /// fee leaves the same escrow and counts towards it.
    pub actual_input_used: u64,
    /// Output that has reached the output escrow since the swap began, once reconciled.
    pub actual_output_received: u64,
}

/// What the host is to do after a step.
#[derive(Debug, PartialEq, Eq)]
pub enum SwapAction<V, E> {
    /// Perform the fee transfer, then step again.
    TransferFee { transfer: Transfer },
    /// Nothing to perform; step again.
    Continue,
    /// Invoke the external program with this call, read the balances anew, then step
    /// again. Where `signer` names an address, the call is signed with that address's
    /// derived authority; where it names none, the call carries only the signatures the
    /// transaction already has.
    Invoke { instruction: SwapInstruction, signer: Option<Address> },
    /// The swap is committed: emit the notification.
    Emit { event: V },
    /// The swap failed: undo everything performed so far and report the error.
    Abort { error: E },
    /// The operation is over and there is nothing to perform.
    Halt,
}

/// The contents of a `SwapAction`.
pub ghost enum SwapActionView<V, E> {
    TransferFee { transfer: Transfer },
    Continue,
    Invoke { instruction: SwapInstructionView, signer: Option<Address> },
    Emit { event: V },
    Abort { error: E },
    Halt,
}

impl<V, E> View for SwapAction<V, E> {
    type V = SwapActionView<V, E>;

    open spec fn view(&self) -> SwapActionView<V, E> {
        match self {
            SwapAction::TransferFee { transfer } => SwapActionView::TransferFee {
                transfer: *transfer,
            },
            SwapAction::Continue => SwapActionView::Continue,
            SwapAction::Invoke { instruction, signer } => SwapActionView::Invoke {
                instruction: instruction@,
                signer: *signer,
            },
            SwapAction::Emit { event } => SwapActionView::Emit { event: *event },
            SwapAction::Abort { error } => SwapActionView::Abort { error: *error },
            SwapAction::Halt => SwapActionView::Halt,
        }
    }
}

impl SwapState {
    /// The state of a swap of which nothing has happened yet.
    pub open spec fn initial() -> SwapState {
        SwapState {
            stage: SwapStage::Validating,
            amount_in: 0,
            min_amount_out: 0,
            fee: 0,
            swap_amount: 0,
            input_balance_before: 0,
            output_balance_before: 0,
            actual_input_used: 0,
            actual_output_received: 0,
        }
    }

    /// A swap of which nothing has happened yet.
    pub fn new() -> (r: SwapState)
        ensures
            r == SwapState::initial(),
    {
        SwapState {
            stage: SwapStage::Validating,
            amount_in: 0,
            min_amount_out: 0,
            fee: 0,
            swap_amount: 0,
            input_balance_before: 0,
            output_balance_before: 0,
            actual_input_used: 0,
            actual_output_received: 0,
        }
    }

    /// The same swap at another stage.
    pub open spec fn at(&self, stage: SwapStage) -> SwapState {
        SwapState { stage, ..*self }
    }

    /// The swap has ended, one way or the other.
    pub open spec fn is_terminal(&self) -> bool {
        self.stage == SwapStage::Committed || self.stage == SwapStage::Aborted
    }
}

/// The addresses that a list of call targets names.
pub open spec fn meta_keys(metas: Seq<AccountMetaData>) -> Seq<Address> {
    Seq::new(metas.len(), |i: int| metas[i].pubkey)
}

/// The account list that gives each of `keys` to the callee as writable and not signing.
pub open spec fn writable_metas(keys: Seq<Address>) -> Seq<AccountMetaData> {
    Seq::new(
        keys.len(),
        |i: int| AccountMetaData { pubkey: keys[i], is_writable: true, is_signer: false },
    )
}

/// Some target is one of the protected accounts.
pub open spec fn touches_protected(targets: Seq<Address>, protected: Seq<Address>) -> bool {
    exists|i: int| 0 <= i < targets.len() && protected.contains(#[trigger] targets[i])
}

/// Whether `key` is one of `protected`.
pub fn is_protected(key: &Address, protected: &Vec<Address>) -> (r: bool)
    ensures
        r == protected@.contains(*key),
{
    let mut j: usize = 0;
    while j < protected.len()
        invariant
            0 <= j <= protected.len(),
            forall|k: int| 0 <= k < j ==> protected@[k] != *key,
        decreases protected.len() - j,
    {
        if protected[j] == *key {
            return true;
        }
        j += 1;
    }
    false
}

/// Whether any of the accounts handed to the call is protected.
pub fn contains_protected_account(targets: &Vec<Address>, protected: &Vec<Address>) -> (r: bool)
    ensures
        r == touches_protected(targets@, protected@),
{
    let mut i: usize = 0;
    while i < targets.len()
        invariant
            0 <= i <= targets.len(),
            forall|k: int| 0 <= k < i ==> !protected@.contains(#[trigger] targets@[k]),
        decreases targets.len() - i,
    {
        if is_protected(&targets[i], protected) {
            return true;
        }
        i += 1;
    }
    false
}

/// Whether any of the accounts the call declares is protected.
pub fn declares_protected_account(metas: &Vec<AccountMetaData>, protected: &Vec<Address>) -> (r:
    bool)
    ensures
        r == touches_protected(meta_keys(metas@), protected@),
{
    let mut i: usize = 0;
    while i < metas.len()
        invariant
            0 <= i <= metas.len(),
            forall|k: int|
                0 <= k < i ==> !protected@.contains(#[trigger] meta_keys(metas@)[k]),
        decreases metas.len() - i,
    {
        if is_protected(&metas[i].pubkey, protected) {
            assert(meta_keys(metas@)[i as int] == metas@[i as int].pubkey);
            return true;
        }
        assert(meta_keys(metas@)[i as int] == metas@[i as int].pubkey);
        i += 1;
    }
    false
}

/// A copy of an account list.
pub fn copy_metas(metas: &Vec<AccountMetaData>) -> (r: Vec<AccountMetaData>)
    ensures
        r@ == metas@,
{
    let mut out: Vec<AccountMetaData> = Vec::new();
    let mut i: usize = 0;
    while i < metas.len()
        invariant
            0 <= i <= metas.len(),
            out@ == metas@.subrange(0, i as int),
        decreases metas.len() - i,
    {
        out.push(metas[i]);
        assert(out@ =~= metas@.subrange(0, i + 1));
        i += 1;
    }
    assert(out@ =~= metas@);
    out
}

/// A copy of a payload.
pub fn copy_bytes(data: &Vec<u8>) -> (r: Vec<u8>)
    ensures
        r@ == data@,
{
    let mut out: Vec<u8> = Vec::new();
    let mut i: usize = 0;
    while i < data.len()
        invariant
            0 <= i <= data.len(),
            out@ == data@.subrange(0, i as int),
        decreases data.len() - i,
    {
        out.push(data[i]);
        assert(out@ =~= data@.subrange(0, i + 1));
        i += 1;
    }
    assert(out@ =~= data@);
    out
}

/// The account list that hands each of `keys` to the callee as writable and not signing.
pub fn build_writable_metas(keys: &Vec<Address>) -> (r: Vec<AccountMetaData>)
    ensures
        r@ == writable_metas(keys@),
{
    let mut out: Vec<AccountMetaData> = Vec::new();
    let mut i: usize = 0;
    while i < keys.len()
        invariant
            0 <= i <= keys.len(),
            out@ == writable_metas(keys@).subrange(0, i as int),
        decreases keys.len() - i,
    {
        out.push(AccountMetaData { pubkey: keys[i], is_writable: true, is_signer: false });
        assert(out@ =~= writable_metas(keys@).subrange(0, i + 1));
        i += 1;
    }
    assert(out@ =~= writable_metas(keys@));
    out
}

/// Why the balances after an external call are not accepted.
#[derive(Clone, Copy, Debug, PartialEq, Eq, Structural)]
pub enum ReconcileFault {
    /// A balance moved the wrong way: the input grew or the output shrank.
    BalanceMovedBackwards,
    /// The call consumed more input than it was authorised to.
    UnexpectedInputAmount,
    /// The call delivered less output than the declared minimum.
    SlippageExceeded,
}

/// What `reconcile` returns: the input consumed and the output delivered, or the first
/// fault among balance direction, input consumed, and output delivered.
pub open spec fn spec_reconcile(
    input_before: u64,
    input_after: u64,
    output_before: u64,
    output_after: u64,
    swap_amount: u64,
    min_amount_out: u64,
) -> Result<(u64, u64), ReconcileFault> {
    if input_after > input_before || output_after < output_before {
        Err(ReconcileFault::BalanceMovedBackwards)
    } else if input_before - input_after > swap_amount {
        Err(ReconcileFault::UnexpectedInputAmount)
    } else if output_after - output_before < min_amount_out {
        Err(ReconcileFault::SlippageExceeded)
    } else {
        Ok(((input_before - input_after) as u64, (output_after - output_before) as u64))
    }
}

/// Holds the balances read after an external call against those read before it: the
/// input may have shrunk by at most `swap_amount`, the output must have grown by at
/// least `min_amount_out`.
pub fn reconcile(
    input_before: u64,
    input_after: u64,
    output_before: u64,
    output_after: u64,
    swap_amount: u64,
    min_amount_out: u64,
) -> (r: Result<(u64, u64), ReconcileFault>)
    ensures
        r == spec_reconcile(
            input_before,
            input_after,
            output_before,
            output_after,
            swap_amount,
            min_amount_out,
        ),
        r matches Ok((used, received)) ==> used <= swap_amount && received >= min_amount_out
            && used == input_before - input_after && received == output_after - output_before,
{
    let actual_input_used = match input_before.checked_sub(input_after) {
        None => {
            return Err(ReconcileFault::BalanceMovedBackwards);
        },
        Some(used) => used,
    };
    let actual_output_received = match output_after.checked_sub(output_before) {
        None => {
            return Err(ReconcileFault::BalanceMovedBackwards);
        },
        Some(received) => received,
    };
    if actual_input_used > swap_amount {
        return Err(ReconcileFault::UnexpectedInputAmount);
    }
    if actual_output_received < min_amount_out {
        return Err(ReconcileFault::SlippageExceeded);
    }
    Ok((actual_input_used, actual_output_received))
}

} // verus!
