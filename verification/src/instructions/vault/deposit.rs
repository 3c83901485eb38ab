use crate::address::Address;
use crate::error::VaultError;
use crate::events::DepositEvent;
use crate::state::Vault;
use crate::token::{MintTo, TokenAccount, Transfer};
use vstd::prelude::*;

verus! {

/// The accounts a deposit works on.
#[derive(Clone, Copy, Debug, PartialEq, Eq)]
pub struct Deposit {
    /// The depositor, who signs.
    pub user: Address,
    /// Address of the vault record.
    pub vault_key: Address,
    pub vault: Vault,
    /// The depositor's account of the underlying asset.
    pub user_token_account: TokenAccount,
    /// The vault's escrow of the underlying asset.
    pub vault_token_account: TokenAccount,
    /// The depositor's account of vault shares.
    pub user_share_account: TokenAccount,
    /// The share unit presented.
    pub share_mint: Address,
}

/// What a deposit asks of its collaborators once the ledger has accepted it.
#[derive(Clone, Copy, Debug, PartialEq, Eq)]
pub struct DepositReceipt {
    /// Assets to move from the depositor to the vault's escrow, authorised by the depositor.
    pub transfer: Transfer,
    /// Shares to issue to the depositor, authorised by the vault itself.
    pub mint_to: MintTo,
    /// Notification to emit.
    pub event: DepositEvent,
}

impl Deposit {
    /// What `validate` returns: the first of the account rules that is broken.
    pub open spec fn spec_validate(&self) -> Result<(), VaultError> {
        if self.user_token_account.mint != self.vault.token_mint {
            Err(VaultError::MintMismatch)
        } else if self.user_token_account.owner != self.user {
            Err(VaultError::InvalidOwner)
        } else if self.vault_token_account.mint != self.vault.token_mint {
            Err(VaultError::MintMismatch)
        } else if self.share_mint != self.vault.share_mint {
            Err(VaultError::MintMismatch)
        } else {
            Ok(())
        }
    }

    /// Checks that the accounts belong together: both asset accounts hold the vault's
    /// underlying asset, the depositor owns the account paid from, and the share unit
    /// is the vault's.
    pub fn validate(&self) -> (r: Result<(), VaultError>)
        ensures
            r == self.spec_validate(),
    {
        if self.user_token_account.mint != self.vault.token_mint {
            return Err(VaultError::MintMismatch);
        }
        if self.user_token_account.owner != self.user {
            return Err(VaultError::InvalidOwner);
        }
        if self.vault_token_account.mint != self.vault.token_mint {
            return Err(VaultError::MintMismatch);
        }
        if self.share_mint != self.vault.share_mint {
            return Err(VaultError::MintMismatch);
        }
        Ok(())
    }

    /// Shares a deposit of `amount` mints, or the reason it is refused: broken account
    /// rules first, then the ledger's own refusals.
    pub open spec fn spec_deposit(&self, amount: u64) -> Result<u64, VaultError> {
        match self.spec_validate() {
            Err(e) => Err(e),
            Ok(_) => self.vault.spec_deposit(amount),
        }
    }
}

/// Accepts a deposit of `amount` into the vault.
///
/// On success the vault's totals have grown by the amount and by the shares it is worth,
/// and the receipt names the two token movements that go with it and the notification.
/// On refusal nothing has changed.
pub fn deposit(ctx: &mut Deposit, amount: u64, timestamp: i64) -> (r: Result<
    DepositReceipt,
    VaultError,
>)
    ensures
        r is Ok <==> old(ctx).spec_deposit(amount) is Ok,
        r matches Err(e) ==> old(ctx).spec_deposit(amount) == Err::<u64, VaultError>(e)
            && *final(ctx) == *old(ctx),
        r matches Ok(receipt) ==> old(ctx).spec_deposit(amount) matches Ok(shares) && {
            &&& *final(ctx) == (Deposit {
                vault: old(ctx).vault.after_deposit(amount, shares),
                ..*old(ctx)
            })
            &&& final(ctx).vault.total_assets == old(ctx).vault.total_assets + amount
            &&& final(ctx).vault.total_shares == old(ctx).vault.total_shares + shares
            &&& old(ctx).vault.backed() ==> final(ctx).vault.backed()
            &&& receipt.transfer == (Transfer {
                from: old(ctx).user_token_account.key,
                to: old(ctx).vault_token_account.key,
                authority: old(ctx).user,
                amount,
            })
            &&& receipt.mint_to == (MintTo {
                mint: old(ctx).share_mint,
                to: old(ctx).user_share_account.key,
                authority: old(ctx).vault_key,
                amount: shares,
            })
            &&& receipt.event == (DepositEvent {
                user: old(ctx).user,
                amount,
                shares,
                total_assets: final(ctx).vault.total_assets,
                total_shares: final(ctx).vault.total_shares,
                timestamp,
            })
        },
{
    match ctx.validate() {
        Err(e) => {
            return Err(e);
        },
        Ok(_) => {},
    }
    if amount == 0 {
        return Err(VaultError::ZeroAmount);
    }
    let shares_to_mint = match ctx.vault.assets_to_shares(amount) {
        Err(e) => {
            return Err(e);
        },
        Ok(shares) => shares,
    };
    let total_assets = match ctx.vault.total_assets.checked_add(amount) {
        None => {
            return Err(VaultError::MathOverflow);
        },
        Some(t) => t,
    };
    let total_shares = match ctx.vault.total_shares.checked_add(shares_to_mint) {
        None => {
            return Err(VaultError::MathOverflow);
        },
        Some(t) => t,
    };
    let transfer = Transfer {
        from: ctx.user_token_account.key,
        to: ctx.vault_token_account.key,
        authority: ctx.user,
        amount,
    };
    let mint_to = MintTo {
        mint: ctx.share_mint,
        to: ctx.user_share_account.key,
        authority: ctx.vault_key,
        amount: shares_to_mint,
    };
    ctx.vault.total_assets = total_assets;
    ctx.vault.total_shares = total_shares;
    let event = DepositEvent {
        user: ctx.user,
        amount,
        shares: shares_to_mint,
        total_assets: ctx.vault.total_assets,
        total_shares: ctx.vault.total_shares,
        timestamp,
    };
    Ok(DepositReceipt { transfer, mint_to, event })
}

} // verus!
