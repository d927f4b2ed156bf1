use vstd::prelude::*;

use crate::error::StakingError;
use crate::state::Pubkey;

verus! {

/// The fixed-point scale 2^48.
pub const FLOAT_SCALAR: u128 = 281_474_976_710_656;

/// The outcome of moving `lamports` from the balance `from` to the balance
/// `to`: the two new balances, or why the move is refused.
pub open spec fn transfer_result(from: u64, to: u64, lamports: u64) -> Result<(u64, u64), StakingError> {
    if from < lamports {
        Err(StakingError::InsufficientBalance)
    } else if to + lamports > u64::MAX {
        Err(StakingError::NumericalOverflow)
    } else {
        Ok(((from - lamports) as u64, (to + lamports) as u64))
    }
}

fn move_lamports(from: &mut u64, to: &mut u64, lamports: u64) -> (r: Result<(), StakingError>)
    ensures
        match transfer_result(*old(from), *old(to), lamports) {
            Ok((f, t)) => r is Ok && *final(from) == f && *final(to) == t,
            Err(e) => r == Err::<(), StakingError>(e) && *final(from) == *old(from) && *final(to) == *old(to),
        },
{
    if *from < lamports {
        return Err(StakingError::InsufficientBalance);
    }
    if *to > u64::MAX - lamports {
        return Err(StakingError::NumericalOverflow);
    }
    *from = *from - lamports;
    *to = *to + lamports;
    Ok(())
}

/// Moves `lamports` from a signer's balance into a ledger-owned balance, the
/// path that needs the signer's authorisation. Refused, with both balances
/// untouched, when `from` holds too little or `to` would overflow.
pub fn transfer_lamports(from: &mut u64, to: &mut u64, lamports: u64) -> (r: Result<(), StakingError>)
    ensures
        match transfer_result(*old(from), *old(to), lamports) {
            Ok((f, t)) => r is Ok && *final(from) == f && *final(to) == t,
            Err(e) => r == Err::<(), StakingError>(e) && *final(from) == *old(from) && *final(to) == *old(to),
        },
{
    move_lamports(from, to, lamports)
}

/// Moves `lamports` out of a ledger-owned balance, which debits itself. Refused,
/// with both balances untouched, when `from` holds too little or `to` would
/// overflow.
pub fn transfer_lamports_from_owned_pda(from: &mut u64, to: &mut u64, lamports: u64) -> (r: Result<(), StakingError>)
    ensures
        match transfer_result(*old(from), *old(to), lamports) {
            Ok((f, t)) => r is Ok && *final(from) == f && *final(to) == t,
            Err(e) => r == Err::<(), StakingError>(e) && *final(from) == *old(from) && *final(to) == *old(to),
        },
{
    move_lamports(from, to, lamports)
}

/// Whether two identities are the same, compared byte by byte.
pub fn cmp_pubkeys(a: &Pubkey, b: &Pubkey) -> (r: bool)
    ensures
        r == (a == b),
{
    let mut i: usize = 0;
    while i < 32
        invariant
            0 <= i <= 32,
            forall|j: int| 0 <= j < i ==> a.bytes[j] == b.bytes[j],
        decreases 32 - i,
    {
        if a.bytes[i] != b.bytes[i] {
            return false;
        }
        i = i + 1;
    }
    assert(a.bytes =~= b.bytes);
    true
}

} // verus!
