use vstd::prelude::*;

use crate::error::StakingError;
use crate::helpers::{cmp_pubkeys, transfer_lamports_from_owned_pda, transfer_result};
use crate::state::{Pubkey, VaultAccount};

verus! {

/// What a sweep reads and changes: the signing authority and its balance, and
/// the vault and its balance.
#[derive(Clone, Copy, Debug, PartialEq, Eq)]
pub struct Withdraw {
    pub authority: Pubkey,
    pub authority_lamports: u64,
    pub vault_data: VaultAccount,
    pub vault_lamports: u64,
}

/// The accounts after a sweep, or why it is refused.
pub open spec fn withdraw_result(ctx: Withdraw) -> Result<Withdraw, StakingError> {
    let vault = ctx.vault_data;
    if ctx.authority != vault.authority {
        Err(StakingError::Unauthorized)
    } else {
        match transfer_result(ctx.vault_lamports, ctx.authority_lamports, ctx.vault_lamports) {
            Err(e) => Err(e),
            Ok((vault_lamports, authority_lamports)) => Ok(Withdraw {
                authority_lamports,
                vault_data: VaultAccount { staked_amount: 0, ..vault },
                vault_lamports,
                ..ctx
            }),
        }
    }
}

/// Sweeps the vault: its entire balance, not only the tracked amount, goes to
/// the authority, and the tracked amount becomes zero, whatever positions are
/// still open. Refused, with nothing changed, when the signer is not the
/// vault's authority or the authority's balance would overflow.
pub fn withdraw(ctx: &mut Withdraw) -> (r: Result<(), StakingError>)
    ensures
        match withdraw_result(*old(ctx)) {
            Ok(post) => r is Ok && *final(ctx) == post,
            Err(e) => r == Err::<(), StakingError>(e) && *final(ctx) == *old(ctx),
        },
{
    if !cmp_pubkeys(&ctx.authority, &ctx.vault_data.authority) {
        return Err(StakingError::Unauthorized);
    }
    let vault_balance = ctx.vault_lamports;
    let mut vault_lamports = ctx.vault_lamports;
    let mut authority_lamports = ctx.authority_lamports;
    match transfer_lamports_from_owned_pda(&mut vault_lamports, &mut authority_lamports, vault_balance) {
        Ok(()) => {},
        Err(e) => return Err(e),
    }
    ctx.vault_data.staked_amount = 0;
    ctx.vault_lamports = vault_lamports;
    ctx.authority_lamports = authority_lamports;
    Ok(())
}

} // verus!
