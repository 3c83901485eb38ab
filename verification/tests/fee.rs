use defi_aggregator::error::{JupiterSwapError, VaultError};
use defi_aggregator::instructions::vault::execute_strategy;
use defi_aggregator::utils::calculate_fee;

#[test]
fn fee_of_thirty_bps_on_one_thousand_rounds_up_to_three() {
    let fee = calculate_fee(1000, 30).unwrap();
    assert_eq!(fee, 3);
    assert_eq!(1000 - fee, 997);
}

#[test]
fn fee_rounds_up_to_the_next_unit() {
    assert_eq!(calculate_fee(1, 1), Ok(1));
    assert_eq!(calculate_fee(9999, 1), Ok(1));
    assert_eq!(calculate_fee(10000, 1), Ok(1));
    assert_eq!(calculate_fee(10001, 1), Ok(2));
    assert_eq!(calculate_fee(333, 250), Ok(9));
    assert_eq!(calculate_fee(400, 250), Ok(10));
}

#[test]
fn fee_is_zero_for_zero_rate_or_zero_amount() {
    assert_eq!(calculate_fee(0, 30), Ok(0));
    assert_eq!(calculate_fee(1000, 0), Ok(0));
    assert_eq!(calculate_fee(u64::MAX, 0), Ok(0));
    assert_eq!(calculate_fee(0, 0), Ok(0));
    assert_eq!(calculate_fee(0, 10000), Ok(0));
}

#[test]
fn fee_at_full_rate_is_the_whole_amount() {
    assert_eq!(calculate_fee(1000, 10000), Ok(1000));
    assert_eq!(calculate_fee(u64::MAX, 10000), Ok(u64::MAX));
    assert_eq!(calculate_fee(u64::MAX, 9999), Ok(18_444_899_399_302_180_660));
}

#[test]
fn fee_rate_above_full_is_rejected() {
    assert_eq!(calculate_fee(1000, 10001), Err(JupiterSwapError::InvalidFeeRate));
    assert_eq!(calculate_fee(0, 10001), Err(JupiterSwapError::InvalidFeeRate));
    assert_eq!(calculate_fee(1000, u16::MAX), Err(JupiterSwapError::InvalidFeeRate));
}

#[test]
fn fee_is_never_below_the_truncated_product() {
    for amount in [0u64, 1, 7, 99, 1000, 12_345, 999_999, u64::MAX / 3, u64::MAX] {
        for rate in [0u16, 1, 30, 250, 5000, 9999, 10000] {
            let fee = calculate_fee(amount, rate).unwrap() as u128;
            let floor = (amount as u128) * (rate as u128) / 10000;
            assert!(fee >= floor);
            assert!(fee <= floor + 1);
            assert!(fee <= amount as u128);
        }
    }
}

#[test]
fn fee_is_monotonic_in_amount_and_rate() {
    let amounts = [0u64, 1, 2, 33, 34, 1000, 1001, 50_000, u64::MAX - 1, u64::MAX];
    let rates = [0u16, 1, 2, 30, 31, 2500, 9999, 10000];
    for rate in rates {
        for pair in amounts.windows(2) {
            assert!(calculate_fee(pair[0], rate).unwrap() <= calculate_fee(pair[1], rate).unwrap());
        }
    }
    for amount in amounts {
        for pair in rates.windows(2) {
            assert!(
                calculate_fee(amount, pair[0]).unwrap() <= calculate_fee(amount, pair[1]).unwrap()
            );
        }
    }
}

#[test]
fn vault_fee_matches_the_shared_fee() {
    assert_eq!(execute_strategy::calculate_fee(1000, 30), Ok(3));
    assert_eq!(execute_strategy::calculate_fee(10001, 1), Ok(2));
    assert_eq!(execute_strategy::calculate_fee(0, 500), Ok(0));
    assert_eq!(execute_strategy::calculate_fee(500, 0), Ok(0));
    assert_eq!(execute_strategy::calculate_fee(1000, 10001), Err(VaultError::InvalidFeeRate));
}
