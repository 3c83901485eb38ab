use defi_aggregator::address::Address;
use defi_aggregator::error::VaultError;
use defi_aggregator::state::Vault;

fn key(n: u8) -> Address {
    Address::new_from_array([n; 32])
}

fn pool(total_assets: u64, total_shares: u64) -> Vault {
    Vault {
        authority: key(1),
        token_mint: key(2),
        share_mint: key(3),
        total_assets,
        total_shares,
        bump: 254,
        strategy_enabled: false,
        performance_fee_bps: 1000,
    }
}

#[test]
fn share_price_of_empty_pool_is_one() {
    assert_eq!(pool(0, 0).share_price(), Ok(1_000_000));
    assert_eq!(pool(777, 0).share_price(), Ok(1_000_000));
}

#[test]
fn share_price_scales_assets_over_shares() {
    assert_eq!(pool(1500, 1000).share_price(), Ok(1_500_000));
    assert_eq!(pool(1000, 3000).share_price(), Ok(333_333));
    assert_eq!(pool(0, 10).share_price(), Ok(0));
    assert_eq!(pool(1500, 1500).share_price(), Ok(1_000_000));
}

#[test]
fn share_price_overflow_is_reported() {
    assert_eq!(pool(u64::MAX, 1).share_price(), Err(VaultError::MathOverflow));
    // 18_446_744_073_709 * 1_000_000 / 1 still fits
    assert_eq!(pool(18_446_744_073_709, 1).share_price(), Ok(18_446_744_073_709_000_000));
    assert_eq!(pool(18_446_744_073_710, 1).share_price(), Err(VaultError::MathOverflow));
}

#[test]
fn first_deposit_mints_one_share_per_asset() {
    assert_eq!(pool(0, 0).assets_to_shares(1000), Ok(1000));
    assert_eq!(pool(0, 0).assets_to_shares(u64::MAX), Ok(u64::MAX));
    assert_eq!(pool(0, 0).assets_to_shares(0), Ok(0));
}

#[test]
fn shares_follow_the_pool_ratio_rounded_down() {
    assert_eq!(pool(1000, 1000).assets_to_shares(500), Ok(500));
    assert_eq!(pool(1500, 1000).assets_to_shares(100), Ok(66));
    assert_eq!(pool(3, 2).assets_to_shares(2), Ok(1));
    assert_eq!(pool(1000, 3000).assets_to_shares(7), Ok(21));
}

#[test]
fn dust_deposit_is_rejected_with_zero_shares() {
    assert_eq!(pool(1500, 1000).assets_to_shares(1), Err(VaultError::ZeroShares));
    assert_eq!(pool(1000, 1000).assets_to_shares(0), Err(VaultError::ZeroShares));
}

#[test]
fn shares_against_a_pool_without_assets_overflow() {
    assert_eq!(pool(0, 10).assets_to_shares(5), Err(VaultError::MathOverflow));
}

#[test]
fn shares_beyond_sixty_four_bits_overflow() {
    assert_eq!(pool(1, u64::MAX).assets_to_shares(2), Err(VaultError::MathOverflow));
    assert_eq!(pool(1, u64::MAX).assets_to_shares(1), Ok(u64::MAX));
}

#[test]
fn assets_follow_the_pool_ratio_rounded_down() {
    assert_eq!(pool(1500, 1000).shares_to_assets(100), Ok(150));
    assert_eq!(pool(1000, 3000).shares_to_assets(7), Ok(2));
    assert_eq!(pool(5, 3).shares_to_assets(1), Ok(1));
    assert_eq!(pool(1000, 500).shares_to_assets(600), Ok(1200));
}

#[test]
fn assets_for_zero_shares_are_worth_nothing() {
    assert_eq!(pool(1000, 1000).shares_to_assets(0), Err(VaultError::ZeroAssets));
    assert_eq!(pool(u64::MAX, 1).shares_to_assets(0), Err(VaultError::ZeroAssets));
    // a pool without shares is refused before the amount is looked at
    assert_eq!(pool(0, 0).shares_to_assets(0), Err(VaultError::NoShares));
    assert_eq!(pool(500, 0).shares_to_assets(0), Err(VaultError::NoShares));
}

#[test]
fn assets_from_a_pool_without_shares_are_rejected() {
    assert_eq!(pool(0, 0).shares_to_assets(10), Err(VaultError::NoShares));
    assert_eq!(pool(500, 0).shares_to_assets(10), Err(VaultError::NoShares));
}

#[test]
fn shares_worth_nothing_are_rejected_with_zero_assets() {
    assert_eq!(pool(1000, 3000).shares_to_assets(2), Err(VaultError::ZeroAssets));
    assert_eq!(pool(0, 10).shares_to_assets(5), Err(VaultError::ZeroAssets));
}

#[test]
fn assets_beyond_sixty_four_bits_overflow() {
    assert_eq!(pool(u64::MAX, 1).shares_to_assets(2), Err(VaultError::MathOverflow));
    assert_eq!(pool(u64::MAX, 1).shares_to_assets(1), Ok(u64::MAX));
}

#[test]
fn converting_there_and_back_never_creates_value() {
    let pools = [
        pool(1000, 1000),
        pool(1500, 1000),
        pool(1000, 1500),
        pool(3, 2),
        pool(7, 13),
        pool(1_000_000_007, 998_244_353),
    ];
    for vault in pools.iter() {
        for x in 1..400u64 {
            if let Ok(shares) = vault.assets_to_shares(x) {
                if let Ok(assets) = vault.shares_to_assets(shares) {
                    assert!(assets <= x, "{} assets came back for {}", assets, x);
                }
            }
        }
    }
}

#[test]
fn converting_there_and_back_at_par_is_exact() {
    let vault = pool(5000, 5000);
    for x in 1..200u64 {
        let shares = vault.assets_to_shares(x).unwrap();
        assert_eq!(shares, x);
        assert_eq!(vault.shares_to_assets(shares), Ok(x));
    }
}

#[test]
fn vault_record_size_counts_every_field() {
    assert_eq!(Vault::INIT_SPACE, 116);
}
