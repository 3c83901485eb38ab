use crate::address::Address;
use crate::error::VaultError;
use crate::state::Vault;
use vstd::prelude::*;

verus! {

/// The accounts the switching of strategies works on.
#[derive(Clone, Copy, Debug, PartialEq, Eq)]
pub struct SetStrategyEnabled {
    /// The caller, who signs.
    pub authority: Address,
    pub vault: Vault,
}

/// Switches the vault's strategies on or off. Only the vault's authority may do so; any
/// other caller is refused and the vault stays as it was.
pub fn set_strategy_enabled(ctx: &mut SetStrategyEnabled, enabled: bool) -> (r: Result<
    (),
    VaultError,
>)
    ensures
        r is Ok <==> old(ctx).authority == old(ctx).vault.authority,
        r matches Err(e) ==> e == VaultError::Unauthorized && *final(ctx) == *old(ctx),
        r is Ok ==> *final(ctx) == (SetStrategyEnabled {
            vault: Vault { strategy_enabled: enabled, ..old(ctx).vault },
            ..*old(ctx)
        }),
{
    if ctx.authority != ctx.vault.authority {
        return Err(VaultError::Unauthorized);
    }
    ctx.vault.strategy_enabled = enabled;
    Ok(())
}

} // verus!
