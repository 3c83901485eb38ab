use defi_aggregator::address::Address;
use defi_aggregator::error::VaultError;
use defi_aggregator::events::StrategyExecutedEvent;
use defi_aggregator::guard::{
    AccountMetaData, SwapAction, SwapInstruction, SwapStage, SwapState,
};
use defi_aggregator::instructions::vault::execute_strategy::{
    execute_jupiter_swap_inline, execute_jupiter_swap_step, execute_strategy,
    execute_strategy_step, update_vault_accounting, ExecuteStrategy,
};
use defi_aggregator::instructions::vault::JupiterStrategyType;
use defi_aggregator::instructions::{
    initialize_vault, set_strategy_enabled, test_increase_assets, InitializeVault,
    SetStrategyEnabled, TestIncreaseAssets,
};
use defi_aggregator::state::{GlobalState, UserState, Vault};
use defi_aggregator::token::{TokenAccount, Transfer};

const JUPITER_BYTES: [u8; 32] = [
    4, 121, 213, 91, 242, 49, 192, 110, 238, 116, 197, 110, 206, 104, 21, 7, 253, 177, 178, 222,
    163, 244, 142, 81, 2, 177, 205, 162, 86, 188, 19, 143,
];

const AUTHORITY: u8 = 1;
const VAULT: u8 = 2;
const GLOBAL: u8 = 3;
const VAULT_STATE: u8 = 4;
const INPUT_ATA: u8 = 5;
const OUTPUT_ATA: u8 = 6;
const FEE_VAULT: u8 = 7;
const INPUT_MINT: u8 = 8;
const OUTPUT_MINT: u8 = 9;

fn key(n: u8) -> Address {
    Address::new_from_array([n; 32])
}

fn jupiter() -> Address {
    Address::new_from_array(JUPITER_BYTES)
}

fn pool(total_assets: u64, total_shares: u64) -> Vault {
    Vault {
        authority: key(AUTHORITY),
        token_mint: key(INPUT_MINT),
        share_mint: key(33),
        total_assets,
        total_shares,
        bump: 253,
        strategy_enabled: true,
        performance_fee_bps: 1000,
    }
}

fn accounts(fee_rate: u16, total_assets: u64, input_balance: u64) -> ExecuteStrategy {
    ExecuteStrategy {
        authority: key(AUTHORITY),
        vault_key: key(VAULT),
        vault: pool(total_assets, 8000),
        global_state_key: key(GLOBAL),
        global_state: GlobalState { admin: key(90), fee_rate, bump: 250 },
        vault_user_state_key: key(VAULT_STATE),
        vault_user_state: UserState { user: key(VAULT), bump: 251, total_volume: 700, swaps: 2 },
        vault_input_ata: TokenAccount {
            key: key(INPUT_ATA),
            mint: key(INPUT_MINT),
            owner: key(VAULT),
            amount: input_balance,
        },
        vault_output_ata: TokenAccount {
            key: key(OUTPUT_ATA),
            mint: key(OUTPUT_MINT),
            owner: key(VAULT),
            amount: 15,
        },
        fee_vault_ata: TokenAccount {
            key: key(FEE_VAULT),
            mint: key(INPUT_MINT),
            owner: key(GLOBAL),
            amount: 0,
        },
        input_mint: key(INPUT_MINT),
        output_mint: key(OUTPUT_MINT),
        jupiter_program: jupiter(),
        remaining_accounts: vec![key(60), key(INPUT_ATA), key(OUTPUT_ATA)],
    }
}

fn targets() -> Vec<Address> {
    vec![key(60), key(INPUT_ATA), key(OUTPUT_ATA)]
}

fn payload() -> Vec<u8> {
    vec![9, 8, 7, 6, 5]
}

struct Outcome {
    result: Result<Option<StrategyExecutedEvent>, VaultError>,
    stage: SwapStage,
    steps: usize,
    fee_collected: u64,
    invoked: Option<SwapInstruction>,
}

/// Runs a strategy as a host would, on a small ledger that is restored when the
/// strategy aborts. The external call consumes `consumes` input and delivers `delivers`.
fn run(
    ctx: &mut ExecuteStrategy,
    strategy_type: JupiterStrategyType,
    amount: u64,
    min_output: u64,
    consumes: i128,
    delivers: i128,
) -> Outcome {
    let input_at_start = ctx.vault_input_ata.amount;
    let output_at_start = ctx.vault_output_ata.amount;
    let mut fee_collected = 0u64;
    let mut invoked = None;
    let mut state = SwapState::new();
    let mut steps = 0;
    loop {
        steps += 1;
        assert!(steps < 20, "the machine does not come to an end");
        let (next, action) = execute_strategy(
            ctx,
            state,
            strategy_type,
            amount,
            min_output,
            &payload(),
            &targets(),
            4321,
        );
        state = next;
        match action {
            SwapAction::TransferFee { transfer } => {
                assert_eq!(transfer.from, ctx.vault_input_ata.key);
                assert_eq!(transfer.to, ctx.fee_vault_ata.key);
                assert_eq!(transfer.authority, ctx.vault_key);
                ctx.vault_input_ata.amount -= transfer.amount;
                fee_collected += transfer.amount;
            }
            SwapAction::Continue => {}
            SwapAction::Invoke { instruction, signer } => {
                assert_eq!(signer, Some(ctx.vault_key));
                invoked = Some(instruction);
                ctx.vault_input_ata.amount = (ctx.vault_input_ata.amount as i128 - consumes) as u64;
                ctx.vault_output_ata.amount = (ctx.vault_output_ata.amount as i128 + delivers) as u64;
            }
            SwapAction::Emit { event } => {
                return Outcome { result: Ok(Some(event)), stage: state.stage, steps, fee_collected, invoked };
            }
            SwapAction::Halt => {
                return Outcome { result: Ok(None), stage: state.stage, steps, fee_collected, invoked };
            }
            SwapAction::Abort { error } => {
                ctx.vault_input_ata.amount = input_at_start;
                ctx.vault_output_ata.amount = output_at_start;
                return Outcome { result: Err(error), stage: state.stage, steps, fee_collected: 0, invoked };
            }
        }
    }
}

#[test]
fn vault_swap_commits_and_takes_the_input_out_of_the_assets() {
    let mut ctx = accounts(30, 10_000, 10_000);
    let outcome = run(&mut ctx, JupiterStrategyType::JupiterSwap, 1000, 900, 990, 950);
    assert_eq!(
        outcome.result,
        Ok(Some(StrategyExecutedEvent {
            vault: key(VAULT),
            strategy_type: JupiterStrategyType::JupiterSwap,
            amount: 1000,
            input_used: 993,
            output_received: 950,
            timestamp: 4321,
        }))
    );
    assert_eq!(outcome.stage, SwapStage::Committed);
    assert_eq!(outcome.steps, 5);
    assert_eq!(outcome.fee_collected, 3);
    // the fee left the escrow with what the call consumed, and both leave the assets
    assert_eq!(ctx.vault.total_assets, 10_000 - 3 - 990);
    assert_eq!(ctx.vault.total_shares, 8000);
    assert_eq!(ctx.vault_user_state.total_volume, 1700);
    assert_eq!(ctx.vault_user_state.swaps, 3);
    assert_eq!(ctx.vault_input_ata.amount, 10_000 - 3 - 990);
    assert_eq!(ctx.vault_output_ata.amount, 965);
    let forwarded = outcome.invoked.unwrap();
    assert_eq!(forwarded.program_id, jupiter());
    assert_eq!(forwarded.data, payload());
    assert_eq!(
        forwarded.accounts,
        vec![
            AccountMetaData { pubkey: key(60), is_writable: true, is_signer: false },
            AccountMetaData { pubkey: key(INPUT_ATA), is_writable: true, is_signer: false },
            AccountMetaData { pubkey: key(OUTPUT_ATA), is_writable: true, is_signer: false },
        ]
    );
}

#[test]
fn vault_fee_is_paid_from_the_escrow_on_the_vaults_authority() {
    let mut ctx = accounts(250, 10_000, 10_000);
    let (state, action) = execute_jupiter_swap_inline(
        &mut ctx,
        SwapState::new(),
        333,
        1,
        &payload(),
        &targets(),
        0,
    );
    assert_eq!(state.stage, SwapStage::FeeCollected);
    assert_eq!(state.fee, 9);
    assert_eq!(state.swap_amount, 324);
    assert_eq!(state.input_balance_before, 10_000);
    assert_eq!(state.output_balance_before, 15);
    assert_eq!(
        action,
        SwapAction::TransferFee {
            transfer: Transfer {
                from: key(INPUT_ATA),
                to: key(FEE_VAULT),
                authority: key(VAULT),
                amount: 9,
            }
        }
    );
}

#[test]
fn other_strategies_end_at_once_and_change_nothing() {
    for strategy_type in [JupiterStrategyType::Rebalance, JupiterStrategyType::Yield] {
        let mut ctx = accounts(30, 10_000, 10_000);
        let outcome = run(&mut ctx, strategy_type, 1000, 900, 0, 0);
        assert_eq!(outcome.result, Ok(None));
        assert_eq!(outcome.stage, SwapStage::Committed);
        assert_eq!(outcome.steps, 1);
        assert_eq!(ctx, accounts(30, 10_000, 10_000));

        let mut short = accounts(30, 999, 10_000);
        let outcome = run(&mut short, strategy_type, 1000, 900, 0, 0);
        assert_eq!(outcome.result, Err(VaultError::InsufficientAssets));
    }
}

#[test]
fn strategy_needs_the_vaults_authority() {
    let mut ctx = accounts(30, 10_000, 10_000);
    ctx.authority = key(77);
    ctx.vault.strategy_enabled = false;
    assert_eq!(ctx.validate(), Err(VaultError::Unauthorized));
    let outcome = run(&mut ctx, JupiterStrategyType::JupiterSwap, 20_000, 900, 0, 0);
    assert_eq!(outcome.result, Err(VaultError::Unauthorized));
    assert_eq!(outcome.steps, 1);
}

#[test]
fn strategy_needs_strategies_switched_on() {
    let mut ctx = accounts(30, 10_000, 10_000);
    ctx.vault.strategy_enabled = false;
    ctx.vault_input_ata.mint = key(78);
    let outcome = run(&mut ctx, JupiterStrategyType::Rebalance, 1000, 900, 0, 0);
    assert_eq!(outcome.result, Err(VaultError::StrategyDisabled));
}

#[test]
fn strategy_checks_the_escrow_accounts_in_order() {
    let mut wrong_input_asset = accounts(30, 10_000, 10_000);
    wrong_input_asset.vault_input_ata.mint = key(78);
    wrong_input_asset.vault_output_ata.owner = key(77);
    assert_eq!(
        run(&mut wrong_input_asset, JupiterStrategyType::JupiterSwap, 10, 1, 0, 0).result,
        Err(VaultError::MintMismatch)
    );

    let mut foreign_output = accounts(30, 10_000, 10_000);
    foreign_output.vault_output_ata.owner = key(77);
    foreign_output.vault_output_ata.mint = key(78);
    assert_eq!(
        run(&mut foreign_output, JupiterStrategyType::JupiterSwap, 10, 1, 0, 0).result,
        Err(VaultError::InvalidOwner)
    );

    let mut wrong_output_asset = accounts(30, 10_000, 10_000);
    wrong_output_asset.vault_output_ata.mint = key(78);
    assert_eq!(
        run(&mut wrong_output_asset, JupiterStrategyType::JupiterSwap, 10, 1, 0, 0).result,
        Err(VaultError::MintMismatch)
    );
    assert_eq!(accounts(30, 10_000, 10_000).validate(), Ok(()));
}

#[test]
fn strategy_larger_than_the_accounted_assets_is_rejected() {
    let mut ctx = accounts(30, 999, 10_000);
    let outcome = run(&mut ctx, JupiterStrategyType::JupiterSwap, 1000, 900, 0, 0);
    assert_eq!(outcome.result, Err(VaultError::InsufficientAssets));
    assert_eq!(outcome.steps, 1);
    assert_eq!(ctx, accounts(30, 999, 10_000));
}

#[test]
fn swap_larger_than_the_escrow_balance_is_rejected() {
    let mut ctx = accounts(30, 10_000, 999);
    let outcome = run(&mut ctx, JupiterStrategyType::JupiterSwap, 1000, 900, 0, 0);
    assert_eq!(outcome.result, Err(VaultError::InsufficientBalance));
    assert_eq!(outcome.steps, 1);
    assert_eq!(ctx, accounts(30, 10_000, 999));
    assert_eq!(ctx.quote(1000), Err(VaultError::InsufficientBalance));
    assert_eq!(accounts(30, 10_000, 1000).quote(1000), Ok(3));

    // short on both counts, the accounted assets are held against the amount first
    let mut both = accounts(30, 999, 999);
    let outcome = run(&mut both, JupiterStrategyType::JupiterSwap, 1000, 900, 0, 0);
    assert_eq!(outcome.result, Err(VaultError::InsufficientAssets));
}

#[test]
fn vault_swap_of_zero_is_invalid() {
    let mut ctx = accounts(30, 10_000, 10_000);
    let outcome = run(&mut ctx, JupiterStrategyType::JupiterSwap, 0, 0, 0, 0);
    assert_eq!(outcome.result, Err(VaultError::InvalidAmount));
}

#[test]
fn vault_swap_with_a_fee_rate_above_full_is_rejected() {
    let mut ctx = accounts(10_001, 10_000, 10_000);
    let outcome = run(&mut ctx, JupiterStrategyType::JupiterSwap, 10, 0, 0, 0);
    assert_eq!(outcome.result, Err(VaultError::InvalidFeeRate));
}

#[test]
fn vault_swap_with_a_protected_account_aborts() {
    for protected in [FEE_VAULT, GLOBAL, VAULT_STATE, VAULT] {
        let mut handed = accounts(30, 10_000, 10_000);
        handed.remaining_accounts.push(key(protected));
        let outcome = run(&mut handed, JupiterStrategyType::JupiterSwap, 1000, 900, 990, 950);
        assert_eq!(outcome.result, Err(VaultError::ProtectedAccountInRemainingAccounts));
        assert_eq!(outcome.steps, 2);
        assert!(outcome.invoked.is_none());
        assert_eq!(outcome.fee_collected, 0);
        assert_eq!(handed.vault, pool(10_000, 8000));
        assert_eq!(handed.vault_user_state.swaps, 2);
        assert_eq!(handed.vault_input_ata.amount, 10_000);

        let mut declared = accounts(30, 10_000, 10_000);
        let mut named = targets();
        named.insert(0, key(protected));
        let (s1, _) = execute_jupiter_swap_inline(
            &mut declared,
            SwapState::new(),
            1000,
            900,
            &payload(),
            &named,
            0,
        );
        let (s2, a2) =
            execute_jupiter_swap_inline(&mut declared, s1, 1000, 900, &payload(), &named, 0);
        assert_eq!(s2.stage, SwapStage::Aborted);
        assert_eq!(a2, SwapAction::Abort { error: VaultError::ProtectedAccountInRemainingAccounts });
        assert_eq!(declared, accounts(30, 10_000, 10_000));
    }
}

#[test]
fn vault_swap_to_another_program_aborts() {
    let mut ctx = accounts(30, 10_000, 10_000);
    ctx.jupiter_program = key(66);
    let outcome = run(&mut ctx, JupiterStrategyType::JupiterSwap, 1000, 900, 990, 950);
    assert_eq!(outcome.result, Err(VaultError::InvalidJupiterProgram));
    assert_eq!(outcome.steps, 3);
    assert!(outcome.invoked.is_none());

    let state = SwapState { stage: SwapStage::AllowListChecked, ..SwapState::new() };
    let (next, action) = execute_jupiter_swap_step(
        &mut ctx,
        state,
        0,
        0,
        &payload(),
        &targets(),
        0,
        Some(key(66)),
    );
    assert_eq!(next.stage, SwapStage::Forwarded);
    assert_eq!(
        action,
        SwapAction::Invoke {
            instruction: SwapInstruction {
                program_id: key(66),
                accounts: vec![
                    AccountMetaData { pubkey: key(60), is_writable: true, is_signer: false },
                    AccountMetaData { pubkey: key(INPUT_ATA), is_writable: true, is_signer: false },
                    AccountMetaData { pubkey: key(OUTPUT_ATA), is_writable: true, is_signer: false },
                ],
                data: payload(),
            },
            signer: Some(key(VAULT)),
        }
    );
    let (next, _) = execute_strategy_step(
        &mut ctx,
        state,
        JupiterStrategyType::JupiterSwap,
        0,
        0,
        &payload(),
        &targets(),
        0,
        None,
    );
    assert_eq!(next.stage, SwapStage::Aborted);
}

#[test]
fn vault_swap_reconciles_the_balances() {
    let mut slipped = accounts(30, 10_000, 10_000);
    let outcome = run(&mut slipped, JupiterStrategyType::JupiterSwap, 1000, 960, 994, 950);
    assert_eq!(outcome.result, Err(VaultError::SlippageExceeded));
    assert_eq!(slipped, accounts(30, 10_000, 10_000));

    let mut greedy = accounts(30, 10_000, 10_000);
    let outcome = run(&mut greedy, JupiterStrategyType::JupiterSwap, 1000, 900, 995, 950);
    assert_eq!(outcome.result, Err(VaultError::UnexpectedInputAmount));
    assert_eq!(greedy, accounts(30, 10_000, 10_000));

    let mut backwards = accounts(30, 10_000, 10_000);
    let outcome = run(&mut backwards, JupiterStrategyType::JupiterSwap, 1000, 0, 10, -5);
    assert_eq!(outcome.result, Err(VaultError::MathOverflow));
    assert_eq!(backwards, accounts(30, 10_000, 10_000));
}

#[test]
fn vault_swap_that_cannot_be_accounted_aborts_the_commit() {
    // the escrow held more than the vault accounts for, and the call consumed more
    let state = SwapState {
        stage: SwapStage::Reconciled,
        amount_in: 1000,
        min_amount_out: 0,
        fee: 3,
        swap_amount: 997,
        input_balance_before: 10_000,
        output_balance_before: 0,
        actual_input_used: 501,
        actual_output_received: 10,
    };
    let mut ctx = accounts(30, 500, 10_000);
    let (next, action) =
        execute_jupiter_swap_inline(&mut ctx, state, 1000, 0, &payload(), &targets(), 0);
    assert_eq!(next.stage, SwapStage::Aborted);
    assert_eq!(action, SwapAction::Abort { error: VaultError::MathOverflow });
    assert_eq!(ctx, accounts(30, 500, 10_000));

    let mut full = accounts(30, 10_000, 10_000);
    full.vault_user_state.swaps = u64::MAX;
    let (next, action) =
        execute_jupiter_swap_inline(&mut full, state, 1000, 0, &payload(), &targets(), 0);
    assert_eq!(next.stage, SwapStage::Aborted);
    assert_eq!(action, SwapAction::Abort { error: VaultError::MathOverflow });
    assert_eq!(full.vault.total_assets, 10_000);
}

#[test]
fn vault_accounting_deducts_what_was_spent() {
    let mut vault = pool(1000, 800);
    assert_eq!(update_vault_accounting(&mut vault, 400, 123_456), Ok(()));
    assert_eq!(vault, pool(600, 800));
    assert_eq!(update_vault_accounting(&mut vault, 601, 0), Err(VaultError::MathOverflow));
    assert_eq!(vault, pool(600, 800));
    assert_eq!(update_vault_accounting(&mut vault, 600, 0), Ok(()));
    assert_eq!(vault.total_assets, 0);
}

#[test]
fn vault_is_created_empty_with_strategies_off() {
    let mut ctx = InitializeVault {
        authority: key(AUTHORITY),
        vault: pool(55, 66),
        vault_bump: 201,
        token_mint: key(INPUT_MINT),
        share_mint: key(34),
    };
    assert_eq!(initialize_vault(&mut ctx, 5000), Ok(()));
    assert_eq!(
        ctx.vault,
        Vault {
            authority: key(AUTHORITY),
            token_mint: key(INPUT_MINT),
            share_mint: key(34),
            total_assets: 0,
            total_shares: 0,
            bump: 201,
            strategy_enabled: false,
            performance_fee_bps: 5000,
        }
    );
    assert_eq!(ctx.vault.share_price(), Ok(1_000_000));
}

#[test]
fn vault_with_a_fee_above_half_is_rejected() {
    let mut ctx = InitializeVault {
        authority: key(AUTHORITY),
        vault: pool(55, 66),
        vault_bump: 201,
        token_mint: key(INPUT_MINT),
        share_mint: key(34),
    };
    assert_eq!(initialize_vault(&mut ctx, 5001), Err(VaultError::InvalidFee));
    assert_eq!(ctx.vault, pool(55, 66));
}

#[test]
fn only_the_authority_switches_strategies() {
    let mut ctx = SetStrategyEnabled { authority: key(AUTHORITY), vault: pool(10, 10) };
    assert_eq!(set_strategy_enabled(&mut ctx, false), Ok(()));
    assert!(!ctx.vault.strategy_enabled);
    assert_eq!(set_strategy_enabled(&mut ctx, true), Ok(()));
    assert_eq!(ctx.vault, pool(10, 10));

    let mut stranger = SetStrategyEnabled { authority: key(77), vault: pool(10, 10) };
    assert_eq!(set_strategy_enabled(&mut stranger, false), Err(VaultError::Unauthorized));
    assert!(stranger.vault.strategy_enabled);
}

#[test]
fn assets_can_be_raised_without_issuing_shares() {
    let mut ctx = TestIncreaseAssets { vault: pool(1000, 1000), authority: key(AUTHORITY) };
    assert_eq!(test_increase_assets(&mut ctx, 500), Ok(()));
    assert_eq!(ctx.vault, pool(1500, 1000));
    assert_eq!(ctx.vault.share_price(), Ok(1_500_000));
    assert_eq!(test_increase_assets(&mut ctx, u64::MAX - 1499), Err(VaultError::MathOverflow));
    assert_eq!(ctx.vault, pool(1500, 1000));
    assert_eq!(test_increase_assets(&mut ctx, u64::MAX - 1500), Ok(()));
    assert_eq!(ctx.vault.total_assets, u64::MAX);
}
