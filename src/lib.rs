//! A staking ledger: an authority's pooled vault, participants' time-locked
//! positions, and simple yearly-rate rewards, with every operation either
//! applied whole or refused with nothing changed.

pub mod error;
pub mod helpers;
pub mod instructions;
pub mod laws;
pub mod state;

pub use error::StakingError;
pub use helpers::{cmp_pubkeys, FLOAT_SCALAR, transfer_lamports, transfer_lamports_from_owned_pda};
pub use instructions::{
    claim_rewards, compute_reward, config, deposit, initialize, sol_stake, sol_unstake, withdraw,
    ClaimRewards, Config, Deposit, Initialize, SolStake, SolUnstake, Withdraw,
};
pub use state::{PlayerAccount, Pubkey, TokenDetails, VaultAccount, SECONDS_PER_YEAR};
