use defi_aggregator::address::Address;
use defi_aggregator::error::{JupiterSwapError, StrategyError, VaultError};
use defi_aggregator::events::{GlobalStateInitialized, SwapEvent, UserRegistered};
use defi_aggregator::guard::{
    contains_protected_account, declares_protected_account, is_protected, reconcile,
    AccountMetaData, ReconcileFault,
};
use defi_aggregator::instructions::{
    handler, initialize_fee_vault, initialize_global_state_handler, register_user_handler,
    ExecuteSwap, InitializeFeeVault, InitializeGlobalState, RegisterUser,
};
use defi_aggregator::state::{GlobalState, StrategyParameters, SwapContext, UserState};
use defi_aggregator::token::TokenAccount;
use defi_aggregator::utils::calculate_profit;

fn key(n: u8) -> Address {
    Address::new_from_array([n; 32])
}

fn blank_context() -> SwapContext {
    SwapContext {
        user: key(0),
        input_mint: key(0),
        output_mint: key(0),
        amount_in: 0,
        min_amount_out: 0,
        timestamp: 0,
        bump: 0,
    }
}

fn request(total_volume: u64, swaps: u64) -> ExecuteSwap {
    ExecuteSwap {
        user: key(1),
        user_state: UserState { user: key(1), bump: 3, total_volume, swaps },
        swap_context: blank_context(),
        swap_context_bump: 99,
    }
}

#[test]
fn addresses_are_equal_when_all_bytes_agree() {
    let mut bytes = [0u8; 32];
    for (i, b) in bytes.iter_mut().enumerate() {
        *b = i as u8;
    }
    let a = Address::new_from_array(bytes);
    assert_eq!(a, Address { bytes });
    assert_eq!(a.to_bytes(), bytes);
    for i in 0..32 {
        let mut other = bytes;
        other[i] ^= 0x80;
        assert_ne!(a, Address::new_from_array(other));
    }
    assert!(a == a);
    assert!(!(a != a));
}

#[test]
fn swap_request_is_recorded_under_the_running_count() {
    let mut ctx = request(5000, 4);
    let event = handler(&mut ctx, 1000, 900, key(7), key(8), 1234).unwrap();
    assert_eq!(
        event,
        SwapEvent {
            user: key(1),
            amount_in: 1000,
            input_mint: key(7),
            output_mint: key(8),
            swap_id: 4,
            timestamp: 1234,
        }
    );
    assert_eq!(
        ctx.swap_context,
        SwapContext {
            user: key(1),
            input_mint: key(7),
            output_mint: key(8),
            amount_in: 1000,
            min_amount_out: 900,
            timestamp: 1234,
            bump: 99,
        }
    );
    assert_eq!(ctx.user_state, UserState { user: key(1), bump: 3, total_volume: 6000, swaps: 5 });
}

#[test]
fn swap_request_that_overflows_the_counters_records_nothing() {
    let mut full_volume = request(u64::MAX, 4);
    assert_eq!(
        handler(&mut full_volume, 1, 0, key(7), key(8), 1),
        Err(JupiterSwapError::MathOverflow)
    );
    assert_eq!(full_volume, request(u64::MAX, 4));
    assert!(handler(&mut full_volume, 0, 0, key(7), key(8), 1).is_ok());

    let mut full_count = request(0, u64::MAX);
    assert_eq!(
        handler(&mut full_count, 1, 0, key(7), key(8), 1),
        Err(JupiterSwapError::MathOverflow)
    );
    assert_eq!(full_count, request(0, u64::MAX));
}

#[test]
fn registration_starts_the_counters_at_zero() {
    let mut ctx = RegisterUser {
        user_state: UserState { user: key(0), bump: 0, total_volume: 9, swaps: 9 },
        user_state_bump: 17,
        authority: key(2),
        user: key(1),
    };
    assert_eq!(register_user_handler(&mut ctx), UserRegistered { user: key(1) });
    assert_eq!(ctx.user_state, UserState { user: key(1), bump: 17, total_volume: 0, swaps: 0 });
    assert_eq!(ctx.authority, key(2));
}

#[test]
fn global_state_takes_the_admin_and_the_fee_rate() {
    let mut ctx = InitializeGlobalState {
        global_state: GlobalState { admin: key(0), fee_rate: 0, bump: 0 },
        global_state_bump: 18,
        admin: key(5),
    };
    assert_eq!(
        initialize_global_state_handler(&mut ctx, 30),
        GlobalStateInitialized { admin: key(5), fee_rate: 30 }
    );
    assert_eq!(ctx.global_state, GlobalState { admin: key(5), fee_rate: 30, bump: 18 });
}

#[test]
fn fee_vault_is_created_empty_and_owned_by_the_settings() {
    let mut ctx = InitializeFeeVault {
        authority: key(1),
        global_state_key: key(2),
        global_state: GlobalState { admin: key(5), fee_rate: 30, bump: 18 },
        vault_ata: TokenAccount { key: key(6), mint: key(0), owner: key(0), amount: 55 },
        input_mint: key(7),
    };
    initialize_fee_vault(&mut ctx);
    assert_eq!(
        ctx.vault_ata,
        TokenAccount { key: key(6), mint: key(7), owner: key(2), amount: 0 }
    );
}

#[test]
fn record_sizes_count_every_field() {
    assert_eq!(GlobalState::LEN, 36);
    assert_eq!(UserState::LEN, 49);
    assert_eq!(SwapContext::LEN, 121);
}

#[test]
fn protected_accounts_are_found_wherever_they_stand() {
    let protected = vec![key(1), key(2), key(3)];
    assert!(is_protected(&key(1), &protected));
    assert!(is_protected(&key(3), &protected));
    assert!(!is_protected(&key(4), &protected));
    assert!(!is_protected(&key(1), &vec![]));

    assert!(!contains_protected_account(&vec![], &protected));
    assert!(!contains_protected_account(&vec![key(4), key(5)], &protected));
    assert!(contains_protected_account(&vec![key(4), key(5), key(2)], &protected));
    assert!(contains_protected_account(&vec![key(3), key(5)], &protected));
    assert!(!contains_protected_account(&vec![key(3)], &vec![]));

    let meta = |n: u8| AccountMetaData { pubkey: key(n), is_writable: false, is_signer: false };
    assert!(!declares_protected_account(&vec![meta(4), meta(5)], &protected));
    assert!(declares_protected_account(&vec![meta(4), meta(1)], &protected));
}

#[test]
fn reconciliation_reports_the_first_fault() {
    assert_eq!(reconcile(1000, 500, 10, 60, 500, 50), Ok((500, 50)));
    assert_eq!(reconcile(1000, 1000, 10, 10, 0, 0), Ok((0, 0)));
    assert_eq!(reconcile(1000, 1001, 10, 60, 500, 50), Err(ReconcileFault::BalanceMovedBackwards));
    assert_eq!(reconcile(1000, 500, 10, 9, 500, 0), Err(ReconcileFault::BalanceMovedBackwards));
    assert_eq!(reconcile(1000, 499, 10, 60, 500, 50), Err(ReconcileFault::UnexpectedInputAmount));
    assert_eq!(reconcile(1000, 499, 10, 10, 500, 50), Err(ReconcileFault::UnexpectedInputAmount));
    assert_eq!(reconcile(1000, 500, 10, 59, 500, 50), Err(ReconcileFault::SlippageExceeded));
    assert_eq!(reconcile(u64::MAX, 0, 0, u64::MAX, u64::MAX, u64::MAX), Ok((u64::MAX, u64::MAX)));
}

fn aiming_at(min_profit_bps: u16) -> StrategyParameters {
    StrategyParameters {
        input_token: key(70),
        output_token: key(71),
        min_profit_bps,
        max_slippage_bps: 0,
        execution_interval: 0,
    }
}

#[test]
fn profit_is_the_output_beyond_the_target() {
    assert_eq!(calculate_profit(100, 120, &aiming_at(1000)), Ok(10));
    assert_eq!(calculate_profit(100, 100, &aiming_at(1000)), Ok(-10));
    assert_eq!(calculate_profit(1000, 1005, &aiming_at(50)), Ok(0));
    assert_eq!(calculate_profit(999, 1000, &aiming_at(1)), Ok(1));
    assert_eq!(calculate_profit(0, 0, &aiming_at(0)), Ok(0));
    assert_eq!(calculate_profit(0, 77, &aiming_at(u16::MAX)), Ok(77));
    assert_eq!(
        calculate_profit(1 << 62, (1 << 62) - 1, &aiming_at(0)),
        Ok(-1)
    );
}

#[test]
fn profit_beyond_the_signed_range_is_refused_not_wrapped() {
    let top = i64::MAX as u64;
    // the largest amounts that can still be measured
    assert_eq!(calculate_profit(0, top, &aiming_at(0)), Ok(i64::MAX));
    assert_eq!(calculate_profit(top, 0, &aiming_at(0)), Ok(-i64::MAX));
    assert_eq!(calculate_profit(top, top, &aiming_at(0)), Ok(0));
    // an output above the signed range
    assert_eq!(calculate_profit(0, top + 1, &aiming_at(0)), Err(VaultError::MathOverflow));
    assert_eq!(calculate_profit(0, u64::MAX, &aiming_at(0)), Err(VaultError::MathOverflow));
    // a target above the signed range
    assert_eq!(calculate_profit(top + 1, 0, &aiming_at(0)), Err(VaultError::MathOverflow));
    assert_eq!(calculate_profit(u64::MAX, 0, &aiming_at(0)), Err(VaultError::MathOverflow));
    assert_eq!(calculate_profit(top, top, &aiming_at(1)), Err(VaultError::MathOverflow));
    // a target beyond sixty-four bits altogether
    assert_eq!(calculate_profit(u64::MAX, 5, &aiming_at(10000)), Err(VaultError::MathOverflow));
    assert_eq!(
        calculate_profit(u64::MAX, u64::MAX, &aiming_at(u16::MAX)),
        Err(VaultError::MathOverflow)
    );
}

#[test]
fn error_codes_count_up_from_six_thousand() {
    assert_eq!(VaultError::MathOverflow.code(), 6000);
    assert_eq!(VaultError::ZeroAmount.code(), 6001);
    assert_eq!(VaultError::ZeroShares.code(), 6002);
    assert_eq!(VaultError::ZeroAssets.code(), 6003);
    assert_eq!(VaultError::NoShares.code(), 6004);
    assert_eq!(VaultError::MintMismatch.code(), 6005);
    assert_eq!(VaultError::InvalidOwner.code(), 6006);
    assert_eq!(VaultError::InsufficientAssets.code(), 6007);
    assert_eq!(VaultError::Unauthorized.code(), 6008);
    assert_eq!(VaultError::StrategyDisabled.code(), 6009);
    assert_eq!(VaultError::InvalidFee.code(), 6010);
    assert_eq!(VaultError::StrategyNotImplemented.code(), 6011);
    assert_eq!(VaultError::InvalidAmount.code(), 6012);
    assert_eq!(VaultError::ProtectedAccountInRemainingAccounts.code(), 6013);
    assert_eq!(VaultError::SlippageExceeded.code(), 6014);
    assert_eq!(VaultError::InvalidFeeRate.code(), 6015);
    assert_eq!(VaultError::UnexpectedInputAmount.code(), 6016);
    assert_eq!(VaultError::InvalidJupiterProgram.code(), 6017);
    assert_eq!(VaultError::InsufficientBalance.code(), 6018);

    assert_eq!(JupiterSwapError::InsufficientBalance.code(), 6000);
    assert_eq!(JupiterSwapError::InvalidTokenAccountOwner.code(), 6001);
    assert_eq!(JupiterSwapError::MintMismatch.code(), 6002);
    assert_eq!(JupiterSwapError::InvalidJupiterProgram.code(), 6003);
    assert_eq!(JupiterSwapError::SlippageExceeded.code(), 6004);
    assert_eq!(JupiterSwapError::MathOverflow.code(), 6005);
    assert_eq!(JupiterSwapError::InvalidAmount.code(), 6006);
    assert_eq!(JupiterSwapError::InvalidFeeRate.code(), 6007);
    assert_eq!(JupiterSwapError::ProtectedAccountInRemainingAccounts.code(), 6008);
    assert_eq!(JupiterSwapError::UnexpectedInputAmount.code(), 6009);
    assert_eq!(JupiterSwapError::InvalidJupiterSwapInstruction.code(), 6010);
    assert_eq!(JupiterSwapError::InvalidAccountsMeta.code(), 6011);
    assert_eq!(JupiterSwapError::JupiterCPIFailed.code(), 6012);

    assert_eq!(StrategyError::NameTooLong.code(), 6000);
    assert_eq!(StrategyError::DescriptionTooLong.code(), 6001);
    assert_eq!(StrategyError::StrategyInactive.code(), 6002);
    assert_eq!(StrategyError::InvalidPrice.code(), 6003);
    assert_eq!(StrategyError::Unauthorized.code(), 6004);
}

#[test]
fn error_messages_say_what_went_wrong() {
    assert_eq!(VaultError::MathOverflow.message(), "Math overflow occurred");
    assert_eq!(VaultError::ZeroAmount.message(), "Cannot deposit/withdraw zero amount");
    assert_eq!(VaultError::InsufficientAssets.message(), "Insufficient assets in vault");
    assert_eq!(VaultError::InvalidFee.message(), "Invalid fee (max 50%)");
    assert_eq!(
        VaultError::InsufficientBalance.message(),
        "Insufficient balance in vault's token account"
    );
    assert_eq!(
        VaultError::ProtectedAccountInRemainingAccounts.message(),
        "Protected account in remaining accounts"
    );
    assert_eq!(
        JupiterSwapError::InsufficientBalance.message(),
        "Insufficient balance in user's token account"
    );
    assert_eq!(JupiterSwapError::SlippageExceeded.message(), "Slippage tolerance exceeded");
    assert_eq!(
        JupiterSwapError::InvalidFeeRate.message(),
        "Invalid fee rate (must be <= 10000 bps)"
    );
    assert_eq!(
        JupiterSwapError::ProtectedAccountInRemainingAccounts.message(),
        "Protected account found in remaining accounts"
    );
    assert_eq!(
        StrategyError::NameTooLong.message(),
        "Strategy name too long (max 50 characters)"
    );
    assert_eq!(StrategyError::Unauthorized.message(), "Unauthorized");
}
