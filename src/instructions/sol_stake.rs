use vstd::prelude::*;

use crate::error::StakingError;
use crate::helpers::{cmp_pubkeys, transfer_lamports, transfer_result};
use crate::state::{PlayerAccount, Pubkey, VaultAccount};

verus! {

/// What a stake reads and changes: the authority named by the caller, the
/// vault and its balance, and the participant's position (a zeroed record when
/// the participant has never staked under this vault) and balance.
#[derive(Clone, Copy, Debug, PartialEq, Eq)]
pub struct SolStake {
    pub authority: Pubkey,
    pub vault_data: VaultAccount,
    pub vault_lamports: u64,
    pub player_data: PlayerAccount,
    pub player_lamports: u64,
}

/// The accounts after staking `amount` for `duration` seconds at time `now`,
/// or why the stake is refused.
pub open spec fn sol_stake_result(ctx: SolStake, amount: u64, duration: u64, now: u64) -> Result<SolStake, StakingError> {
    let vault = ctx.vault_data;
    let player = ctx.player_data;
    if ctx.authority != vault.authority {
        Err(StakingError::Unauthorized)
    } else if amount == 0 {
        Err(StakingError::AmountMustBeGreaterThanZero)
    } else if player.staked_amount + amount > u64::MAX || vault.staked_amount + amount > u64::MAX {
        Err(StakingError::NumericalOverflow)
    } else {
        match transfer_result(ctx.player_lamports, ctx.vault_lamports, amount) {
            Err(e) => Err(e),
            Ok((player_lamports, vault_lamports)) => Ok(SolStake {
                vault_data: VaultAccount {
                    staked_amount: (vault.staked_amount + amount) as u64,
                    ..vault
                },
                vault_lamports,
                player_data: PlayerAccount {
                    staked_amount: (player.staked_amount + amount) as u64,
                    staked_time: now,
                    duration_time: duration,
                    reward_time: now,
                    ..player
                },
                player_lamports,
                ..ctx
            }),
        }
    }
}

/// Locks `amount` more of the participant's balance in the vault for
/// `duration` seconds from `now`. The position's principal and the vault's
/// tracked amount grow by `amount`; the lock and the reward accrual window
/// both restart at `now`, also for principal staked earlier, while the credited
/// reward total is kept. Refused, with nothing changed, when the named
/// authority is not the vault's, when `amount` is zero, when a counter would
/// overflow, or when the participant cannot pay.
pub fn sol_stake(ctx: &mut SolStake, amount: u64, duration: u64, now: u64) -> (r: Result<(), StakingError>)
    ensures
        match sol_stake_result(*old(ctx), amount, duration, now) {
            Ok(post) => r is Ok && *final(ctx) == post,
            Err(e) => r == Err::<(), StakingError>(e) && *final(ctx) == *old(ctx),
        },
{
    if !cmp_pubkeys(&ctx.authority, &ctx.vault_data.authority) {
        return Err(StakingError::Unauthorized);
    }
    if amount == 0 {
        return Err(StakingError::AmountMustBeGreaterThanZero);
    }
    if ctx.player_data.staked_amount > u64::MAX - amount || ctx.vault_data.staked_amount > u64::MAX
        - amount {
        return Err(StakingError::NumericalOverflow);
    }
    let mut player_lamports = ctx.player_lamports;
    let mut vault_lamports = ctx.vault_lamports;
    match transfer_lamports(&mut player_lamports, &mut vault_lamports, amount) {
        Ok(()) => {},
        Err(e) => return Err(e),
    }
    ctx.player_data.staked_amount = ctx.player_data.staked_amount + amount;
    ctx.player_data.staked_time = now;
    ctx.player_data.duration_time = duration;
    ctx.player_data.reward_time = now;
    ctx.player_lamports = player_lamports;
    ctx.vault_data.staked_amount = ctx.vault_data.staked_amount + amount;
    ctx.vault_lamports = vault_lamports;
    Ok(())
}

} // verus!
