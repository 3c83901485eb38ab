use crate::address::Address;
use crate::error::VaultError;
use vstd::prelude::*;

verus! {

/// Scale of a share price: a price of `PRICE_SCALE` stands for exactly one asset per share.
pub const PRICE_SCALE: u64 = 1_000_000;

/// Highest performance fee a vault may be created with, in basis points.
pub const MAX_PERFORMANCE_FEE_BPS: u16 = 5000;

/// One pooled-asset pool for a single underlying asset.
///
/// `total_assets` and `total_shares` are the two sides of the share ledger: a holder of
/// `s` shares owns the fraction `s / total_shares` of `total_assets`.
#[derive(Clone, Copy, Debug, PartialEq, Eq)]
pub struct Vault {
    /// Identity permitted to run strategies and to switch them on or off.
    pub authority: Address,
    /// The underlying asset the vault accepts.
    pub token_mint: Address,
    /// The share unit the vault issues.
    pub share_mint: Address,
    /// Underlying assets accounted to the pool.
    pub total_assets: u64,
    /// Shares outstanding.
    pub total_shares: u64,
    /// Nonce of the vault's derived authority.
    pub bump: u8,
    /// Whether strategies may run.
    pub strategy_enabled: bool,
    /// Performance fee in basis points.
    pub performance_fee_bps: u16,
}

/// `floor(amount * numerator / denominator)`, the proportional conversion used both ways.
pub open spec fn proportion(amount: int, numerator: int, denominator: int) -> int {
    (amount * numerator) / denominator
}

impl Vault {
    /// Bytes a stored vault occupies after its discriminator.
    pub const INIT_SPACE: usize = 32 + 32 + 32 + 8 + 8 + 1 + 1 + 2;

    /// The performance fee is within its limit.
    pub open spec fn wf(&self) -> bool {
        self.performance_fee_bps <= MAX_PERFORMANCE_FEE_BPS
    }

    /// No assets are accounted to a pool that has no shares outstanding.
    pub open spec fn backed(&self) -> bool {
        self.total_shares == 0 ==> self.total_assets == 0
    }

    /// What `share_price` returns.
    pub open spec fn spec_share_price(&self) -> Result<u64, VaultError> {
        if self.total_shares == 0 {
            Ok(PRICE_SCALE)
        } else if proportion(self.total_assets as int, PRICE_SCALE as int, self.total_shares as int)
            > u64::MAX {
            Err(VaultError::MathOverflow)
        } else {
            Ok(
                proportion(
                    self.total_assets as int,
                    PRICE_SCALE as int,
                    self.total_shares as int,
                ) as u64,
            )
        }
    }

    /// What `assets_to_shares` returns.
    pub open spec fn spec_assets_to_shares(&self, assets: u64) -> Result<u64, VaultError> {
        if self.total_shares == 0 {
            Ok(assets)
        } else if self.total_assets == 0 {
            Err(VaultError::MathOverflow)
        } else if proportion(assets as int, self.total_shares as int, self.total_assets as int)
            > u64::MAX {
            Err(VaultError::MathOverflow)
        } else if proportion(assets as int, self.total_shares as int, self.total_assets as int)
            == 0 {
            Err(VaultError::ZeroShares)
        } else {
            Ok(proportion(assets as int, self.total_shares as int, self.total_assets as int) as u64)
        }
    }

    /// What `shares_to_assets` returns.
    pub open spec fn spec_shares_to_assets(&self, shares: u64) -> Result<u64, VaultError> {
        if self.total_shares == 0 {
            Err(VaultError::NoShares)
        } else if proportion(shares as int, self.total_assets as int, self.total_shares as int)
            > u64::MAX {
            Err(VaultError::MathOverflow)
        } else if proportion(shares as int, self.total_assets as int, self.total_shares as int)
            == 0 {
            Err(VaultError::ZeroAssets)
        } else {
            Ok(proportion(shares as int, self.total_assets as int, self.total_shares as int) as u64)
        }
    }

    /// The vault with `amount` more assets and `shares` more shares.
    pub open spec fn after_deposit(&self, amount: u64, shares: u64) -> Vault {
        Vault {
            total_assets: (self.total_assets + amount) as u64,
            total_shares: (self.total_shares + shares) as u64,
            ..*self
        }
    }

    /// The vault with `assets` fewer assets and `shares` fewer shares.
    pub open spec fn after_withdraw(&self, shares: u64, assets: u64) -> Vault {
        Vault {
            total_assets: (self.total_assets - assets) as u64,
            total_shares: (self.total_shares - shares) as u64,
            ..*self
        }
    }

    /// Shares minted by a deposit of `amount`, or the reason the deposit is refused.
    pub open spec fn spec_deposit(&self, amount: u64) -> Result<u64, VaultError> {
        if amount == 0 {
            Err(VaultError::ZeroAmount)
        } else {
            match self.spec_assets_to_shares(amount) {
                Err(e) => Err(e),
                Ok(shares) => if self.total_assets + amount > u64::MAX || self.total_shares
                    + shares > u64::MAX {
                    Err(VaultError::MathOverflow)
                } else {
                    Ok(shares)
                },
            }
        }
    }

    /// Assets paid out for burning `shares`, or the reason the withdrawal is refused.
    pub open spec fn spec_withdraw(&self, shares: u64) -> Result<u64, VaultError> {
        if shares == 0 {
            Err(VaultError::ZeroShares)
        } else {
            match self.spec_shares_to_assets(shares) {
                Err(e) => Err(e),
                Ok(assets) => if assets > self.total_assets {
                    Err(VaultError::InsufficientAssets)
                } else if shares > self.total_shares {
                    Err(VaultError::MathOverflow)
                } else {
                    Ok(assets)
                },
            }
        }
    }

    /// Price of one share in underlying assets, scaled by `PRICE_SCALE`; an empty pool
    /// prices a share at exactly one asset.
    pub fn share_price(&self) -> (r: Result<u64, VaultError>)
        ensures
            r == self.spec_share_price(),
    {
        if self.total_shares == 0 {
            return Ok(1_000_000);
        }
        assert(self.total_assets * 1_000_000 <= 0xFFFF_FFFF_FFFF_FFFF * 1_000_000)
            by (nonlinear_arith)
            requires
                self.total_assets <= 0xFFFF_FFFF_FFFF_FFFF,
        ;
        let price: u128 = ((self.total_assets as u128) * 1_000_000) / (self.total_shares as u128);
        if price > u64::MAX as u128 {
            return Err(VaultError::MathOverflow);
        }
        Ok(price as u64)
    }

    /// Shares a deposit of `assets` is worth: one share per asset in an empty pool,
    /// otherwise the pool's current ratio, rounded down and never to nothing.
    pub fn assets_to_shares(&self, assets: u64) -> (r: Result<u64, VaultError>)
        ensures
            r == self.spec_assets_to_shares(assets),
    {
        if self.total_shares == 0 {
            return Ok(assets);
        }
        if self.total_assets == 0 {
            return Err(VaultError::MathOverflow);
        }
        proof {
            lemma_product_fits(assets, self.total_shares);
        }
        let shares: u128 = ((assets as u128) * (self.total_shares as u128)) / (
        self.total_assets as u128);
        if shares > u64::MAX as u128 {
            return Err(VaultError::MathOverflow);
        }
        if shares == 0 {
            return Err(VaultError::ZeroShares);
        }
        Ok(shares as u64)
    }

    /// Assets that `shares` are worth at the pool's current ratio, rounded down and never
    /// to nothing. A pool without shares has no ratio to convert at.
    pub fn shares_to_assets(&self, shares: u64) -> (r: Result<u64, VaultError>)
        ensures
            r == self.spec_shares_to_assets(shares),
    {
        if self.total_shares == 0 {
            return Err(VaultError::NoShares);
        }
        proof {
            lemma_product_fits(shares, self.total_assets);
        }
        let assets: u128 = ((shares as u128) * (self.total_assets as u128)) / (
        self.total_shares as u128);
        if assets > u64::MAX as u128 {
            return Err(VaultError::MathOverflow);
        }
        if assets == 0 {
            return Err(VaultError::ZeroAssets);
        }
        Ok(assets as u64)
    }
}

/// The product of two 64-bit values fits in 128 bits.
pub proof fn lemma_product_fits(a: u64, b: u64)
    ensures
        0 <= a * b <= u128::MAX,
{
    assert(0 <= a * b <= 0xFFFF_FFFF_FFFF_FFFF * 0xFFFF_FFFF_FFFF_FFFF) by (nonlinear_arith)
        requires
            0 <= a <= 0xFFFF_FFFF_FFFF_FFFF,
            0 <= b <= 0xFFFF_FFFF_FFFF_FFFF,
    ;
}

} // verus!
