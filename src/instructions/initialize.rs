use vstd::prelude::*;

use crate::error::StakingError;
use crate::state::{Pubkey, VaultAccount};

verus! {

/// What creating a vault reads and changes: the signing authority and the
/// vault record bound to it, if one exists.
#[derive(Clone, Copy, Debug, PartialEq, Eq)]
pub struct Initialize {
    pub authority: Pubkey,
    pub vault_data: Option<VaultAccount>,
}

/// The accounts after creating the vault with `apy_rate`, or why it is refused.
pub open spec fn initialize_result(ctx: Initialize, apy_rate: u64) -> Result<Initialize, StakingError> {
    if ctx.vault_data is Some {
        Err(StakingError::AlreadyInitialized)
    } else {
        Ok(Initialize {
            vault_data: Some(VaultAccount { authority: ctx.authority, staked_amount: 0, apy_rate }),
            ..ctx
        })
    }
}

/// Creates the authority's vault with nothing staked and the given rate.
/// Refused, with nothing changed, when the vault already exists.
pub fn initialize(ctx: &mut Initialize, apy_rate: u64) -> (r: Result<(), StakingError>)
    ensures
        match initialize_result(*old(ctx), apy_rate) {
            Ok(post) => r is Ok && *final(ctx) == post,
            Err(e) => r == Err::<(), StakingError>(e) && *final(ctx) == *old(ctx),
        },
{
    if ctx.vault_data.is_some() {
        return Err(StakingError::AlreadyInitialized);
    }
    ctx.vault_data = Some(VaultAccount { authority: ctx.authority, staked_amount: 0, apy_rate });
    Ok(())
}

} // verus!
