use vstd::prelude::*;

use crate::error::StakingError;
use crate::helpers::{cmp_pubkeys, transfer_lamports_from_owned_pda, transfer_result};
use crate::state::{PlayerAccount, Pubkey, VaultAccount};

verus! {

/// What an unstake reads and changes: the authority named by the caller, the
/// vault and its balance, and the participant's position and balance.
#[derive(Clone, Copy, Debug, PartialEq, Eq)]
pub struct SolUnstake {
    pub authority: Pubkey,
    pub vault_data: VaultAccount,
    pub vault_lamports: u64,
    pub player_data: PlayerAccount,
    pub player_lamports: u64,
}

/// The accounts after an unstake at time `now`, or why it is refused.
pub open spec fn sol_unstake_result(ctx: SolUnstake, now: u64) -> Result<SolUnstake, StakingError> {
    let vault = ctx.vault_data;
    let player = ctx.player_data;
    let amount = player.staked_amount;
    if ctx.authority != vault.authority {
        Err(StakingError::Unauthorized)
    } else if player.unlock_time() > now {
        Err(StakingError::InvalidUnstakeTime)
    } else if amount > vault.staked_amount {
        Err(StakingError::InsufficientBalance)
    } else {
        match transfer_result(ctx.vault_lamports, ctx.player_lamports, amount) {
            Err(e) => Err(e),
            Ok((vault_lamports, player_lamports)) => Ok(SolUnstake {
                vault_data: VaultAccount { staked_amount: (vault.staked_amount - amount) as u64, ..vault },
                vault_lamports,
                player_data: PlayerAccount { staked_amount: 0, ..player },
                player_lamports,
                ..ctx
            }),
        }
    }
}

/// Returns the whole principal of a position whose lock has ended at `now`:
/// it leaves the vault's balance and tracked amount, and the position's
/// principal becomes zero. Rewards are not settled. Refused, with nothing
/// changed, when the named authority is not the vault's, when `now` is before
/// `staked_time + duration_time`, or when the vault cannot cover or pay the
/// principal.
pub fn sol_unstake(ctx: &mut SolUnstake, now: u64) -> (r: Result<(), StakingError>)
    ensures
        match sol_unstake_result(*old(ctx), now) {
            Ok(post) => r is Ok && *final(ctx) == post,
            Err(e) => r == Err::<(), StakingError>(e) && *final(ctx) == *old(ctx),
        },
{
    if !cmp_pubkeys(&ctx.authority, &ctx.vault_data.authority) {
        return Err(StakingError::Unauthorized);
    }
    let staked_time = ctx.player_data.staked_time;
    if staked_time > now || ctx.player_data.duration_time > now - staked_time {
        return Err(StakingError::InvalidUnstakeTime);
    }
    let amount = ctx.player_data.staked_amount;
    if amount > ctx.vault_data.staked_amount {
        return Err(StakingError::InsufficientBalance);
    }
    let mut vault_lamports = ctx.vault_lamports;
    let mut player_lamports = ctx.player_lamports;
    match transfer_lamports_from_owned_pda(&mut vault_lamports, &mut player_lamports, amount) {
        Ok(()) => {},
        Err(e) => return Err(e),
    }
    ctx.vault_data.staked_amount = ctx.vault_data.staked_amount - amount;
    ctx.vault_lamports = vault_lamports;
    ctx.player_data.staked_amount = 0;
    ctx.player_lamports = player_lamports;
    Ok(())
}

} // verus!
