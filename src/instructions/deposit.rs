use vstd::prelude::*;

use crate::error::StakingError;
use crate::helpers::{cmp_pubkeys, transfer_lamports, transfer_result};
use crate::state::{Pubkey, VaultAccount};

verus! {

/// What a deposit reads and changes: the authority named by the caller, the
/// vault and its balance, and the depositor's balance.
#[derive(Clone, Copy, Debug, PartialEq, Eq)]
pub struct Deposit {
    pub authority: Pubkey,
    pub vault_data: VaultAccount,
    pub vault_lamports: u64,
    pub player_lamports: u64,
}

/// The accounts after depositing `amount`, or why the deposit is refused.
pub open spec fn deposit_result(ctx: Deposit, amount: u64) -> Result<Deposit, StakingError> {
    let vault = ctx.vault_data;
    if ctx.authority != vault.authority {
        Err(StakingError::Unauthorized)
    } else if amount == 0 {
        Err(StakingError::AmountMustBeGreaterThanZero)
    } else if vault.staked_amount + amount > u64::MAX {
        Err(StakingError::NumericalOverflow)
    } else {
        match transfer_result(ctx.player_lamports, ctx.vault_lamports, amount) {
            Err(e) => Err(e),
            Ok((player_lamports, vault_lamports)) => Ok(Deposit {
                vault_data: VaultAccount { staked_amount: (vault.staked_amount + amount) as u64, ..vault },
                vault_lamports,
                player_lamports,
                ..ctx
            }),
        }
    }
}

/// Funds the pool with `amount` of the depositor's balance, without touching
/// any position: the vault's tracked amount and balance grow by `amount`.
/// Refused, with nothing changed, when the named authority is not the vault's,
/// when `amount` is zero, when the tracked amount would overflow, or when the
/// depositor cannot pay.
pub fn deposit(ctx: &mut Deposit, amount: u64) -> (r: Result<(), StakingError>)
    ensures
        match deposit_result(*old(ctx), amount) {
            Ok(post) => r is Ok && *final(ctx) == post,
            Err(e) => r == Err::<(), StakingError>(e) && *final(ctx) == *old(ctx),
        },
{
    if !cmp_pubkeys(&ctx.authority, &ctx.vault_data.authority) {
        return Err(StakingError::Unauthorized);
    }
    if amount == 0 {
        return Err(StakingError::AmountMustBeGreaterThanZero);
    }
    if ctx.vault_data.staked_amount > u64::MAX - amount {
        return Err(StakingError::NumericalOverflow);
    }
    let mut player_lamports = ctx.player_lamports;
    let mut vault_lamports = ctx.vault_lamports;
    match transfer_lamports(&mut player_lamports, &mut vault_lamports, amount) {
        Ok(()) => {},
        Err(e) => return Err(e),
    }
    ctx.vault_data.staked_amount = ctx.vault_data.staked_amount + amount;
    ctx.vault_lamports = vault_lamports;
    ctx.player_lamports = player_lamports;
    Ok(())
}

} // verus!
