use crate::address::Address;
use crate::error::VaultError;
use crate::events::WithdrawEvent;
use crate::state::Vault;
use crate::token::{Burn, TokenAccount, Transfer};
use vstd::prelude::*;

verus! {

/// The accounts a withdrawal works on.
#[derive(Clone, Copy, Debug, PartialEq, Eq)]
pub struct Withdraw {
    /// The withdrawer, who signs.
    pub user: Address,
    /// Address of the vault record.
    pub vault_key: Address,
    pub vault: Vault,
    /// The withdrawer's account of the underlying asset, which is paid into.
    pub user_token_account: TokenAccount,
    /// The vault's escrow of the underlying asset, which is paid from.
    pub vault_token_account: TokenAccount,
    /// The withdrawer's account of vault shares, which are burned.
    pub user_share_account: TokenAccount,
    /// The share unit presented.
    pub share_mint: Address,
}

/// What a withdrawal asks of its collaborators once the ledger has accepted it.
#[derive(Clone, Copy, Debug, PartialEq, Eq)]
pub struct WithdrawReceipt {
    /// Shares to destroy, authorised by the withdrawer.
    pub burn: Burn,
    /// Assets to move from the vault's escrow to the withdrawer, authorised by the vault itself.
    pub transfer: Transfer,
    /// Notification to emit.
    pub event: WithdrawEvent,
}

impl Withdraw {
    /// What `validate` returns: the first of the account rules that is broken.
    pub open spec fn spec_validate(&self) -> Result<(), VaultError> {
        if self.user_token_account.mint != self.vault.token_mint {
            Err(VaultError::MintMismatch)
        } else if self.user_token_account.owner != self.user {
            Err(VaultError::InvalidOwner)
        } else if self.vault_token_account.mint != self.vault.token_mint {
            Err(VaultError::MintMismatch)
        } else if self.user_share_account.mint != self.vault.share_mint {
            Err(VaultError::MintMismatch)
        } else if self.user_share_account.owner != self.user {
            Err(VaultError::InvalidOwner)
        } else if self.share_mint != self.vault.share_mint {
            Err(VaultError::MintMismatch)
        } else {
            Ok(())
        }
    }

    /// Checks that the accounts belong together: both asset accounts hold the vault's
    /// underlying asset, the share account holds the vault's shares, the withdrawer owns
    /// the accounts that are debited and credited, and the share unit is the vault's.
    pub fn validate(&self) -> (r: Result<(), VaultError>)
        ensures
            r == self.spec_validate(),
    {
        if self.user_token_account.mint != self.vault.token_mint {
            return Err(VaultError::MintMismatch);
        }
        if self.user_token_account.owner != self.user {
            return Err(VaultError::InvalidOwner);
        }
        if self.vault_token_account.mint != self.vault.token_mint {
            return Err(VaultError::MintMismatch);
        }
        if self.user_share_account.mint != self.vault.share_mint {
            return Err(VaultError::MintMismatch);
        }
        if self.user_share_account.owner != self.user {
            return Err(VaultError::InvalidOwner);
        }
        if self.share_mint != self.vault.share_mint {
            return Err(VaultError::MintMismatch);
        }
        Ok(())
    }

    /// Assets a withdrawal of `shares` pays, or the reason it is refused: broken account
    /// rules first, then the ledger's own refusals.
    pub open spec fn spec_withdraw(&self, shares: u64) -> Result<u64, VaultError> {
        match self.spec_validate() {
            Err(e) => Err(e),
            Ok(_) => self.vault.spec_withdraw(shares),
        }
    }
}

/// Redeems `shares` of the vault.
///
/// On success the vault's totals have shrunk by the shares and by the assets they are
/// worth, and the receipt names the two token movements that go with it and the
/// notification. No more shares are burned than are outstanding, and no more assets paid
/// than the pool accounts for. On refusal nothing has changed.
pub fn withdraw(ctx: &mut Withdraw, shares: u64, timestamp: i64) -> (r: Result<
    WithdrawReceipt,
    VaultError,
>)
    ensures
        r is Ok <==> old(ctx).spec_withdraw(shares) is Ok,
        r matches Err(e) ==> old(ctx).spec_withdraw(shares) == Err::<u64, VaultError>(e)
            && *final(ctx) == *old(ctx),
        r matches Ok(receipt) ==> old(ctx).spec_withdraw(shares) matches Ok(assets) && {
            &&& *final(ctx) == (Withdraw {
                vault: old(ctx).vault.after_withdraw(shares, assets),
                ..*old(ctx)
            })
            &&& 0 < shares <= old(ctx).vault.total_shares
            &&& 0 < assets <= old(ctx).vault.total_assets
            &&& final(ctx).vault.total_assets == old(ctx).vault.total_assets - assets
            &&& final(ctx).vault.total_shares == old(ctx).vault.total_shares - shares
            &&& old(ctx).vault.backed() ==> final(ctx).vault.backed()
            &&& receipt.burn == (Burn {
                mint: old(ctx).share_mint,
                from: old(ctx).user_share_account.key,
                authority: old(ctx).user,
                amount: shares,
            })
            &&& receipt.transfer == (Transfer {
                from: old(ctx).vault_token_account.key,
                to: old(ctx).user_token_account.key,
                authority: old(ctx).vault_key,
                amount: assets,
            })
            &&& receipt.event == (WithdrawEvent {
                user: old(ctx).user,
                shares,
                amount: assets,
                total_assets: final(ctx).vault.total_assets,
                total_shares: final(ctx).vault.total_shares,
                timestamp,
            })
        },
{
    match ctx.validate() {
        Err(e) => {
            return Err(e);
        },
        Ok(_) => {},
    }
    if shares == 0 {
        return Err(VaultError::ZeroShares);
    }
    let assets_to_return = match ctx.vault.shares_to_assets(shares) {
        Err(e) => {
            return Err(e);
        },
        Ok(assets) => assets,
    };
    if ctx.vault.total_assets < assets_to_return {
        return Err(VaultError::InsufficientAssets);
    }
    let total_assets = match ctx.vault.total_assets.checked_sub(assets_to_return) {
        None => {
            return Err(VaultError::MathOverflow);
        },
        Some(t) => t,
    };
    let total_shares = match ctx.vault.total_shares.checked_sub(shares) {
        None => {
            return Err(VaultError::MathOverflow);
        },
        Some(t) => t,
    };
    proof {
        if total_shares == 0 {
            // burning every share pays out every asset
            let ta = ctx.vault.total_assets as int;
            let ts = ctx.vault.total_shares as int;
            assert((ts * ta) / ts == ta) by (nonlinear_arith)
                requires
                    ts > 0,
            ;
        }
    }
    let burn = Burn {
        mint: ctx.share_mint,
        from: ctx.user_share_account.key,
        authority: ctx.user,
        amount: shares,
    };
    let transfer = Transfer {
        from: ctx.vault_token_account.key,
        to: ctx.user_token_account.key,
        authority: ctx.vault_key,
        amount: assets_to_return,
    };
    ctx.vault.total_assets = total_assets;
    ctx.vault.total_shares = total_shares;
    let event = WithdrawEvent {
        user: ctx.user,
        shares,
        amount: assets_to_return,
        total_assets: ctx.vault.total_assets,
        total_shares: ctx.vault.total_shares,
        timestamp,
    };
    Ok(WithdrawReceipt { burn, transfer, event })
}

} // verus!
