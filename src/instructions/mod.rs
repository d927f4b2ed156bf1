pub mod claim_rewards;
pub mod config;
pub mod deposit;
pub mod initialize;
pub mod sol_stake;
pub mod sol_unstake;
pub mod withdraw;

pub use self::claim_rewards::{claim_rewards, compute_reward, ClaimRewards};
pub use self::config::{config, Config};
pub use self::deposit::{deposit, Deposit};
pub use self::initialize::{initialize, Initialize};
pub use self::sol_stake::{sol_stake, SolStake};
pub use self::sol_unstake::{sol_unstake, SolUnstake};
pub use self::withdraw::{withdraw, Withdraw};
