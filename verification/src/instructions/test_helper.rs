use crate::address::Address;
use crate::error::VaultError;
use crate::state::Vault;
use vstd::prelude::*;

verus! {

/// The accounts the test adjustment of a vault's assets works on.
#[derive(Clone, Copy, Debug, PartialEq, Eq)]
pub struct TestIncreaseAssets {
    pub vault: Vault,
    /// The caller, who signs.
    pub authority: Address,
}

/// Adds `amount` to the vault's accounted assets without issuing shares, as a gain would.
/// An amount that does not fit is refused and leaves the vault as it was.
pub fn test_increase_assets(ctx: &mut TestIncreaseAssets, amount: u64) -> (r: Result<
    (),
    VaultError,
>)
    ensures
        r is Ok <==> old(ctx).vault.total_assets + amount <= u64::MAX,
        r matches Err(e) ==> e == VaultError::MathOverflow && *final(ctx) == *old(ctx),
        r is Ok ==> *final(ctx) == (TestIncreaseAssets {
            vault: Vault {
                total_assets: (old(ctx).vault.total_assets + amount) as u64,
                ..old(ctx).vault
            },
            ..*old(ctx)
        }),
{
    match ctx.vault.total_assets.checked_add(amount) {
        None => Err(VaultError::MathOverflow),
        Some(total_assets) => {
            ctx.vault.total_assets = total_assets;
            Ok(())
        },
    }
}

} // verus!
