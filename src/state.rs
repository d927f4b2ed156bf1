use vstd::prelude::*;

verus! {

/// An account identity: the 32 bytes of a public key or a derived address.
#[derive(Clone, Copy, Debug, PartialEq, Eq)]
pub struct Pubkey {
    pub bytes: [u8; 32],
}

/// The pooled record of one authority: the tracked stake and the reward rate.
#[derive(Clone, Copy, Debug, PartialEq, Eq)]
pub struct VaultAccount {
    /// The identity allowed to configure and sweep the vault; fixed at creation.
    pub authority: Pubkey,
    /// Staked principal plus deposited reward liquidity still held by the vault.
    pub staked_amount: u64,
    /// Whole units of reward per unit of principal per year.
    pub apy_rate: u64,
}

/// One participant's position under one authority's vault.
#[derive(Clone, Copy, Debug, PartialEq, Eq, Structural)]
pub struct PlayerAccount {
    /// When the current stake was established.
    pub staked_time: u64,
    /// The locked principal; zero means no active stake.
    pub staked_amount: u64,
    /// The start of the next reward accrual window.
    pub reward_time: u64,
    /// The lock length, in seconds, chosen at stake time.
    pub duration_time: u64,
    /// All rewards credited to this position so far.
    pub reward_amount: u64,
}

/// Descriptive data of a token.
#[derive(Clone, Debug)]
pub struct TokenDetails {
    pub name: String,
    pub symbol: String,
    pub uri: String,
    pub initial_supply: u64,
}

impl PlayerAccount {
    /// A freshly created position record: every field zero.
    pub fn new() -> (r: PlayerAccount)
        ensures
            r == (PlayerAccount {
                staked_time: 0,
                staked_amount: 0,
                reward_time: 0,
                duration_time: 0,
                reward_amount: 0,
            }),
    {
        PlayerAccount { staked_time: 0, staked_amount: 0, reward_time: 0, duration_time: 0, reward_amount: 0 }
    }

    /// The instant from which the position may be unstaked.
    pub open spec fn unlock_time(self) -> int {
        self.staked_time + self.duration_time
    }
}

/// The number of seconds in a 365-day year.
pub const SECONDS_PER_YEAR: u64 = 31_536_000;

/// The reward of `staked` principal at `rate` over `elapsed` seconds: simple
/// proration of the yearly rate, truncated toward zero.
pub open spec fn reward_of(staked: u64, rate: u64, elapsed: u64) -> int {
    (staked as int * rate as int * elapsed as int) / (SECONDS_PER_YEAR as int)
}

} // verus!
