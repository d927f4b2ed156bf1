use vstd::prelude::*;

use crate::error::StakingError;
use crate::helpers::transfer_result;
use crate::instructions::claim_rewards::{claim_rewards_result, reward_result, ClaimRewards};
use crate::instructions::config::{config_result, Config};
use crate::instructions::deposit::{deposit_result, Deposit};
use crate::instructions::sol_stake::{sol_stake_result, SolStake};
use crate::instructions::sol_unstake::{sol_unstake_result, SolUnstake};
use crate::instructions::withdraw::{withdraw_result, Withdraw};

verus! {

/// Value is only ever moved, never created or destroyed: every successful
/// deposit, stake, unstake, claim and sweep leaves the sum of the balances it
/// touches as it was, and a refused one changes nothing at all. Over any
/// sequence of these operations the total therefore stays the same; what a
/// sweep takes out of the vault is exactly what the authority receives.
pub proof fn lemma_conservation(
    d: Deposit,
    deposit_amount: u64,
    s: SolStake,
    stake_amount: u64,
    duration: u64,
    stake_now: u64,
    u: SolUnstake,
    unstake_now: u64,
    c: ClaimRewards,
    claim_now: u64,
    w: Withdraw,
)
    ensures
        deposit_result(d, deposit_amount) is Ok ==> ({
            let post = deposit_result(d, deposit_amount)->Ok_0;
            post.player_lamports + post.vault_lamports == d.player_lamports + d.vault_lamports
        }),
        sol_stake_result(s, stake_amount, duration, stake_now) is Ok ==> ({
            let post = sol_stake_result(s, stake_amount, duration, stake_now)->Ok_0;
            post.player_lamports + post.vault_lamports == s.player_lamports + s.vault_lamports
        }),
        sol_unstake_result(u, unstake_now) is Ok ==> ({
            let post = sol_unstake_result(u, unstake_now)->Ok_0;
            post.player_lamports + post.vault_lamports == u.player_lamports + u.vault_lamports
        }),
        claim_rewards_result(c, claim_now) is Ok ==> ({
            let post = claim_rewards_result(c, claim_now)->Ok_0;
            post.player_lamports + post.vault_lamports == c.player_lamports + c.vault_lamports
        }),
        withdraw_result(w) is Ok ==> ({
            let post = withdraw_result(w)->Ok_0;
            &&& post.authority_lamports + post.vault_lamports == w.authority_lamports + w.vault_lamports
            &&& post.authority_lamports - w.authority_lamports == w.vault_lamports
        }),
{
}

/// No counter or balance is ever driven below zero: a debit larger than what
/// it is taken from is refused (and a refusal leaves everything unchanged).
/// This holds of the vault's tracked amount and balance when principal is
/// unstaked or a reward is paid, and of any balance that a transfer debits.
pub proof fn lemma_overdraft_refused(
    from: u64,
    to: u64,
    lamports: u64,
    u: SolUnstake,
    unstake_now: u64,
    c: ClaimRewards,
    claim_now: u64,
)
    ensures
        lamports > from ==> transfer_result(from, to, lamports) == Err::<(u64, u64), StakingError>(
            StakingError::InsufficientBalance,
        ),
        u.player_data.staked_amount > u.vault_data.staked_amount ==> sol_unstake_result(u, unstake_now) is Err,
        u.player_data.staked_amount > u.vault_lamports ==> sol_unstake_result(u, unstake_now) is Err,
        claim_now > c.player_data.reward_time ==> ({
            let reward = reward_result(
                c.player_data.staked_amount,
                c.vault_data.apy_rate,
                (claim_now - c.player_data.reward_time) as u64,
            );
            reward is Ok && (reward->Ok_0 > c.vault_data.staked_amount || reward->Ok_0 > c.vault_lamports)
                ==> claim_rewards_result(c, claim_now) is Err
        }),
{
}

/// Unstaking is gated by the lock: strictly before `staked_time +
/// duration_time` it is refused for timing, and from that instant on it
/// succeeds, as long as the vault can cover and pay the principal, and leaves
/// the position with no principal.
pub proof fn lemma_unstake_gating(ctx: SolUnstake, now: u64)
    requires
        ctx.authority == ctx.vault_data.authority,
    ensures
        now < ctx.player_data.unlock_time() ==> sol_unstake_result(ctx, now) == Err::<SolUnstake, StakingError>(
            StakingError::InvalidUnstakeTime,
        ),
        now >= ctx.player_data.unlock_time() && ctx.player_data.staked_amount <= ctx.vault_data.staked_amount
            && ctx.player_data.staked_amount <= ctx.vault_lamports && ctx.player_lamports
            + ctx.player_data.staked_amount <= u64::MAX ==> {
            &&& sol_unstake_result(ctx, now) is Ok
            &&& sol_unstake_result(ctx, now)->Ok_0.player_data.staked_amount == 0
        },
{
}

/// Claiming never lowers the credited reward total: over two consecutive
/// successful claims it only grows, and a claim at the very instant of the
/// last settlement is refused for timing.
pub proof fn lemma_reward_monotonic(ctx: ClaimRewards, first_now: u64, second_now: u64)
    ensures
        ctx.authority == ctx.vault_data.authority && ctx.player_data.staked_amount > 0 && first_now
            == ctx.player_data.reward_time ==> claim_rewards_result(ctx, first_now) == Err::<
            ClaimRewards,
            StakingError,
        >(StakingError::InvalidRewardTime),
        claim_rewards_result(ctx, first_now) is Ok ==> ({
            let first = claim_rewards_result(ctx, first_now)->Ok_0;
            &&& first.player_data.reward_amount >= ctx.player_data.reward_amount
            &&& first.player_data.reward_time == first_now
            &&& claim_rewards_result(first, first_now) == Err::<ClaimRewards, StakingError>(
                StakingError::InvalidRewardTime,
            )
            &&& claim_rewards_result(first, second_now) is Ok ==> claim_rewards_result(
                first,
                second_now,
            )->Ok_0.player_data.reward_amount >= first.player_data.reward_amount
        }),
{
}

/// Configuring twice with the same rate is the same as configuring once: the
/// second call succeeds and changes nothing, and neither call touches the
/// vault's tracked amount.
pub proof fn lemma_config_idempotent(ctx: Config, apy_rate: u64)
    ensures
        config_result(ctx, apy_rate) is Ok ==> ({
            let once = config_result(ctx, apy_rate)->Ok_0;
            &&& config_result(once, apy_rate) == Ok::<Config, StakingError>(once)
            &&& once.vault_data->Some_0.apy_rate == apy_rate
            &&& ctx.vault_data is Some ==> once.vault_data->Some_0.staked_amount
                == ctx.vault_data->Some_0.staked_amount
        }),
{
}

/// A sweep by the vault's authority empties the vault's whole balance, not
/// only its tracked amount, into the authority's balance and sets the tracked
/// amount to zero; it is refused only when the authority's balance would
/// overflow.
pub proof fn lemma_withdraw_sweeps(ctx: Withdraw)
    requires
        ctx.authority == ctx.vault_data.authority,
    ensures
        ctx.authority_lamports + ctx.vault_lamports <= u64::MAX <==> withdraw_result(ctx) is Ok,
        withdraw_result(ctx) is Ok ==> ({
            let post = withdraw_result(ctx)->Ok_0;
            &&& post.vault_lamports == 0
            &&& post.vault_data.staked_amount == 0
            &&& post.authority_lamports == ctx.authority_lamports + ctx.vault_lamports
        }),
{
}

} // verus!
