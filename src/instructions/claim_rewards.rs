use vstd::prelude::*;
use vstd::arithmetic::div_mod::{lemma_fundamental_div_mod, lemma_mod_pos_bound};

use crate::error::StakingError;
use crate::helpers::{cmp_pubkeys, transfer_lamports_from_owned_pda, transfer_result};
use crate::state::{reward_of, PlayerAccount, Pubkey, VaultAccount, SECONDS_PER_YEAR};

verus! {

/// What a reward claim reads and changes: the authority named by the caller,
/// the vault and its balance, and the participant's position and balance.
#[derive(Clone, Copy, Debug, PartialEq, Eq)]
pub struct ClaimRewards {
    pub authority: Pubkey,
    pub vault_data: VaultAccount,
    pub vault_lamports: u64,
    pub player_data: PlayerAccount,
    pub player_lamports: u64,
}

/// The reward of `staked` principal at `rate` over `elapsed` seconds, refused
/// when the reward itself does not fit in 64 bits.
pub open spec fn reward_result(staked: u64, rate: u64, elapsed: u64) -> Result<u64, StakingError> {
    if reward_of(staked, rate, elapsed) > u64::MAX {
        Err(StakingError::NumericalOverflow)
    } else {
        Ok(reward_of(staked, rate, elapsed) as u64)
    }
}

/// The accounts after a claim at time `now`, or why the claim is refused.
pub open spec fn claim_rewards_result(ctx: ClaimRewards, now: u64) -> Result<ClaimRewards, StakingError> {
    let vault = ctx.vault_data;
    let player = ctx.player_data;
    if ctx.authority != vault.authority {
        Err(StakingError::Unauthorized)
    } else if player.staked_amount == 0 {
        Err(StakingError::AmountMustBeGreaterThanZero)
    } else if now <= player.reward_time {
        Err(StakingError::InvalidRewardTime)
    } else {
        match reward_result(player.staked_amount, vault.apy_rate, (now - player.reward_time) as u64) {
            Err(e) => Err(e),
            Ok(reward) => if reward > vault.staked_amount {
                Err(StakingError::InsufficientBalance)
            } else if player.reward_amount + reward > u64::MAX {
                Err(StakingError::NumericalOverflow)
            } else {
                match transfer_result(ctx.vault_lamports, ctx.player_lamports, reward) {
                    Err(e) => Err(e),
                    Ok((vault_lamports, player_lamports)) => Ok(ClaimRewards {
                        vault_data: VaultAccount {
                            staked_amount: (vault.staked_amount - reward) as u64,
                            ..vault
                        },
                        vault_lamports,
                        player_data: PlayerAccount {
                            reward_time: now,
                            reward_amount: (player.reward_amount + reward) as u64,
                            ..player
                        },
                        player_lamports,
                        ..ctx
                    }),
                }
            },
        }
    }
}

/// The reward of `staked` principal at `rate` over `elapsed` seconds:
/// `staked * rate * elapsed / SECONDS_PER_YEAR`, computed exactly and
/// truncated toward zero; refused only when that reward exceeds 64 bits.
pub fn compute_reward(staked: u64, rate: u64, elapsed: u64) -> (r: Result<u64, StakingError>)
    ensures
        r == reward_result(staked, rate, elapsed),
{
    if elapsed == 0 {
        assert(staked as int * rate as int * 0 == 0) by (nonlinear_arith);
        return Ok(0);
    }
    let s = staked as u128;
    let a = rate as u128;
    let e = elapsed as u128;
    assert(s * a <= u64::MAX as int * u64::MAX as int) by (nonlinear_arith)
        requires
            s <= u64::MAX,
            a <= u64::MAX,
    ;
    let sa: u128 = s * a;
    let max_sa: u128 = u128::MAX / e;
    proof {
        lemma_fundamental_div_mod(u128::MAX as int, e as int);
        lemma_mod_pos_bound(u128::MAX as int, e as int);
    }
    if sa > max_sa {
        proof {
            let q = max_sa as int;
            let rem = u128::MAX as int % e as int;
            assert(sa * e > u128::MAX) by (nonlinear_arith)
                requires
                    sa >= q + 1,
                    u128::MAX == e * q + rem,
                    0 <= rem < e,
                    e > 0,
            ;
            let x = sa * e;
            let y = SECONDS_PER_YEAR as int;
            lemma_fundamental_div_mod(x, y);
            lemma_mod_pos_bound(x, y);
            let qq = x / y;
            let rr = x % y;
            assert(qq > u64::MAX) by (nonlinear_arith)
                requires
                    x == y * qq + rr,
                    0 <= rr < y,
                    x > u128::MAX,
                    y == 31_536_000,
            ;
        }
        return Err(StakingError::NumericalOverflow);
    }
    assert(sa * e <= e * max_sa) by (nonlinear_arith)
        requires
            sa <= max_sa,
            e >= 0,
    ;
    let product: u128 = sa * e;
    let reward: u128 = product / (SECONDS_PER_YEAR as u128);
    if reward > u64::MAX as u128 {
        return Err(StakingError::NumericalOverflow);
    }
    Ok(reward as u64)
}

/// Pays a participant the reward accrued since the last settlement, at time
/// `now`: the reward leaves the vault's balance and its tracked amount, the
/// position's accrual window restarts at `now`, and the reward is added to the
/// position's credited total. Refused, with nothing changed, when the named
/// authority is not the vault's, when the position holds no stake, when no
/// time has passed since the last settlement, or when the reward cannot be
/// computed, covered or paid. Returns the reward paid.
pub fn claim_rewards(ctx: &mut ClaimRewards, now: u64) -> (r: Result<u64, StakingError>)
    ensures
        match claim_rewards_result(*old(ctx), now) {
            Ok(post) => r == Ok::<u64, StakingError>(
                (post.player_data.reward_amount - old(ctx).player_data.reward_amount) as u64,
            ) && *final(ctx) == post,
            Err(e) => r == Err::<u64, StakingError>(e) && *final(ctx) == *old(ctx),
        },
{
    if !cmp_pubkeys(&ctx.authority, &ctx.vault_data.authority) {
        return Err(StakingError::Unauthorized);
    }
    if ctx.player_data.staked_amount == 0 {
        return Err(StakingError::AmountMustBeGreaterThanZero);
    }
    if now <= ctx.player_data.reward_time {
        return Err(StakingError::InvalidRewardTime);
    }
    let time = now - ctx.player_data.reward_time;
    let rewards = match compute_reward(ctx.player_data.staked_amount, ctx.vault_data.apy_rate, time) {
        Ok(v) => v,
        Err(e) => return Err(e),
    };
    if rewards > ctx.vault_data.staked_amount {
        return Err(StakingError::InsufficientBalance);
    }
    if ctx.player_data.reward_amount > u64::MAX - rewards {
        return Err(StakingError::NumericalOverflow);
    }
    let mut vault_lamports = ctx.vault_lamports;
    let mut player_lamports = ctx.player_lamports;
    match transfer_lamports_from_owned_pda(&mut vault_lamports, &mut player_lamports, rewards) {
        Ok(()) => {},
        Err(e) => return Err(e),
    }
    ctx.vault_data.staked_amount = ctx.vault_data.staked_amount - rewards;
    ctx.vault_lamports = vault_lamports;
    ctx.player_data.reward_time = now;
    ctx.player_data.reward_amount = ctx.player_data.reward_amount + rewards;
    ctx.player_lamports = player_lamports;
    Ok(rewards)
}

} // verus!
