use vstd::prelude::*;

use crate::error::StakingError;
use crate::helpers::cmp_pubkeys;
use crate::state::{Pubkey, VaultAccount};

verus! {

/// What configuring reads and changes: the signing authority and the vault
/// record bound to it, if one exists.
#[derive(Clone, Copy, Debug, PartialEq, Eq)]
pub struct Config {
    pub authority: Pubkey,
    pub vault_data: Option<VaultAccount>,
}

/// The accounts after setting the rate to `apy_rate`, or why it is refused.
pub open spec fn config_result(ctx: Config, apy_rate: u64) -> Result<Config, StakingError> {
    match ctx.vault_data {
        None => Ok(Config {
            vault_data: Some(VaultAccount { authority: ctx.authority, staked_amount: 0, apy_rate }),
            ..ctx
        }),
        Some(vault) => if ctx.authority != vault.authority {
            Err(StakingError::Unauthorized)
        } else {
            Ok(Config { vault_data: Some(VaultAccount { apy_rate, ..vault }), ..ctx })
        },
    }
}

/// Sets the vault's reward rate to `apy_rate`, any value accepted, creating
/// the vault (nothing staked, bound to the signer) when it does not exist yet.
/// Refused, with nothing changed, when the signer is not the vault's authority.
pub fn config(ctx: &mut Config, apy_rate: u64) -> (r: Result<(), StakingError>)
    ensures
        match config_result(*old(ctx), apy_rate) {
            Ok(post) => r is Ok && *final(ctx) == post,
            Err(e) => r == Err::<(), StakingError>(e) && *final(ctx) == *old(ctx),
        },
{
    match ctx.vault_data {
        None => {
            ctx.vault_data = Some(VaultAccount { authority: ctx.authority, staked_amount: 0, apy_rate });
            Ok(())
        },
        Some(vault) => {
            if !cmp_pubkeys(&ctx.authority, &vault.authority) {
                return Err(StakingError::Unauthorized);
            }
            ctx.vault_data = Some(VaultAccount { apy_rate, ..vault });
            Ok(())
        },
    }
}

} // verus!
