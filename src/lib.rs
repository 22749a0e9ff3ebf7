//! A single-pool staking ledger: depositors lock a staking token and accrue a
//! reward token in proportion to elapsed time and their share of the pool.
//!
//! Every operation is a pure decision over plain values: it takes the pool
//! ledger, the caller's position, the accounts the caller presented and the
//! current time, and returns either an error (with all state untouched) or the
//! updated state together with the token movement and the event to record.
pub mod accounts;
pub mod accrual;
pub mod address;
pub mod error;
pub mod instructions;
pub mod laws;
pub mod state;

pub use accounts::{
    AdminAction, Authority, ChangeAdminEvent, ClaimEvent, ClaimRewards, CloseUserStakeInfo,
    EmergencyWithdrawRewards, EmergencyWithdrawStaked, FundRewards, FundRewardsEvent, Initialize,
    PauseEvent, Stake, StakeEvent, TokenWallet, Transfer, UnStake, UnpauseEvent, UnstakeEvent,
    UpdateLockupDurationEvent, UpdateRewardRateEvent,
};
pub use accrual::PRECISION;
pub use address::Address;
pub use error::{ErrorCategory, StakingError};
pub use instructions::{
    change_admin, claim_rewards, close_user_stake_info, emergency_withdraw_reward_tokens,
    emergency_withdraw_staked_tokens, fund_rewards, initialize, pause, stake, unpause, unstake,
    update_lockup_duration, update_reward_rate,
};
pub use state::{Pool, UserStakeInfo};
