use crate::address::Address;
use crate::error::VaultError;
use crate::state::vault::MAX_PERFORMANCE_FEE_BPS;
use crate::state::Vault;
use vstd::prelude::*;

verus! {

/// The accounts the creation of a vault works on.
#[derive(Clone, Copy, Debug, PartialEq, Eq)]
pub struct InitializeVault {
    /// The creator, who becomes the vault's authority.
    pub authority: Address,
    /// The record to fill in.
    pub vault: Vault,
    /// Nonce of the vault's derived authority.
    pub vault_bump: u8,
    /// The underlying asset.
    pub token_mint: Address,
    /// The share unit created for the vault.
    pub share_mint: Address,
}

impl InitializeVault {
    /// The vault that the creation leaves: empty, with strategies switched off.
    pub open spec fn created(&self, performance_fee_bps: u16) -> Vault {
        Vault {
            authority: self.authority,
            token_mint: self.token_mint,
            share_mint: self.share_mint,
            total_assets: 0,
            total_shares: 0,
            bump: self.vault_bump,
            strategy_enabled: false,
            performance_fee_bps,
        }
    }
}

/// Creates a vault for one underlying asset, with the given performance fee. A fee above
/// fifty percent is refused and leaves the record as it was.
pub fn initialize_vault(ctx: &mut InitializeVault, performance_fee_bps: u16) -> (r: Result<
    (),
    VaultError,
>)
    ensures
        r is Ok <==> performance_fee_bps <= MAX_PERFORMANCE_FEE_BPS,
        r matches Err(e) ==> e == VaultError::InvalidFee && *final(ctx) == *old(ctx),
        r is Ok ==> *final(ctx) == (InitializeVault {
            vault: old(ctx).created(performance_fee_bps),
            ..*old(ctx)
        }) && final(ctx).vault.wf() && final(ctx).vault.backed(),
{
    if performance_fee_bps > 5000 {
        return Err(VaultError::InvalidFee);
    }
    ctx.vault.authority = ctx.authority;
    ctx.vault.token_mint = ctx.token_mint;
    ctx.vault.share_mint = ctx.share_mint;
    ctx.vault.total_assets = 0;
    ctx.vault.total_shares = 0;
    ctx.vault.bump = ctx.vault_bump;
    ctx.vault.strategy_enabled = false;
    ctx.vault.performance_fee_bps = performance_fee_bps;
    Ok(())
}

} // verus!
