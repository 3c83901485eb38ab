use crate::address::Address;
use crate::state::GlobalState;
use crate::token::TokenAccount;
use vstd::prelude::*;

verus! {

/// The accounts the creation of a fee-collection account works on.
#[derive(Clone, Copy, Debug, PartialEq, Eq)]
pub struct InitializeFeeVault {
    /// Who pays for the account.
    pub authority: Address,
    /// Address of the protocol-wide settings, which own the account.
    pub global_state_key: Address,
    pub global_state: GlobalState,
    /// The account to fill in.
    pub vault_ata: TokenAccount,
    /// The asset the account collects fees in.
    pub input_mint: Address,
}

/// Creates the fee-collection account for one asset: empty, holding that asset, and
/// owned by the protocol-wide settings.
pub fn initialize_fee_vault(ctx: &mut InitializeFeeVault)
    ensures
        *final(ctx) == (InitializeFeeVault {
            vault_ata: TokenAccount {
                key: old(ctx).vault_ata.key,
                mint: old(ctx).input_mint,
                owner: old(ctx).global_state_key,
                amount: 0,
            },
            ..*old(ctx)
        }),
{
    ctx.vault_ata.mint = ctx.input_mint;
    ctx.vault_ata.owner = ctx.global_state_key;
    ctx.vault_ata.amount = 0;
}

} // verus!
