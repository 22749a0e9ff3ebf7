//! The operations on the pool. Each one validates the presented accounts and
//! its arguments, brings accrual up to date, and only then changes state; it
//! either commits every change or, on any error, leaves everything as it was.
//!
//! The returned `Transfer` must be performed by the caller as part of the same
//! all-or-nothing step: if it fails, the caller discards the new state.
use crate::accounts::{
    AdminAction, Authority, ChangeAdminEvent, ClaimEvent, ClaimRewards, CloseUserStakeInfo,
    EmergencyWithdrawRewards, EmergencyWithdrawStaked, FundRewards, FundRewardsEvent, Initialize,
    PauseEvent, Stake, StakeEvent, Transfer, UnStake, UnpauseEvent, UnstakeEvent,
    UpdateLockupDurationEvent, UpdateRewardRateEvent,
};
use crate::address::Address;
use crate::error::StakingError;
use crate::state::{Pool, UserStakeInfo};
use vstd::prelude::*;

verus! {

// ---------------------------------------------------------------------------
// Creation

/// The pool as it stands right after creation at time `now`.
pub open spec fn initial_pool(accounts: Initialize, reward_rate: u64, lockup_duration: i64, now: i64) -> Pool {
    Pool {
        admin: accounts.admin,
        staking_mint: accounts.staking_mint,
        staking_vault: accounts.staking_vault,
        reward_mint: accounts.reward_mint,
        reward_vault: accounts.reward_vault,
        reward_rate,
        last_update_timestamp: now,
        total_staked: 0,
        reward_per_token_stored: 0,
        pool_bump: accounts.pool_bump,
        lockup_duration,
        is_paused: false,
    }
}

/// Creates the pool: nothing staked, index at zero, not paused.
pub fn initialize(accounts: &Initialize, reward_rate: u64, lockup_duration: i64, now: i64) -> (r: Pool)
    ensures
        r == initial_pool(*accounts, reward_rate, lockup_duration, now),
{
    Pool {
        admin: accounts.admin,
        staking_mint: accounts.staking_mint,
        staking_vault: accounts.staking_vault,
        reward_mint: accounts.reward_mint,
        reward_vault: accounts.reward_vault,
        reward_rate,
        last_update_timestamp: now,
        total_staked: 0,
        reward_per_token_stored: 0,
        pool_bump: accounts.pool_bump,
        lockup_duration,
        is_paused: false,
    }
}

// ---------------------------------------------------------------------------
// Stake

pub open spec fn stake_accounts_match(pool: Pool, accounts: Stake) -> bool {
    &&& accounts.staking_vault == pool.staking_vault
    &&& accounts.staking_mint == pool.staking_mint
    &&& accounts.user_staking_wallet.mint == pool.staking_mint
}

/// The outcome of a deposit of `amount` at `now`: the new pool and position,
/// or the first rejection that applies.
pub open spec fn stake_result(
    pool: Pool,
    info: UserStakeInfo,
    accounts: Stake,
    now: i64,
    amount: u64,
) -> Result<(Pool, UserStakeInfo), StakingError> {
    if !stake_accounts_match(pool, accounts) {
        Err(StakingError::AccountMismatch)
    } else if pool.is_paused {
        Err(StakingError::ProgramPaused)
    } else if amount == 0 {
        Err(StakingError::ZeroStakeAmount)
    } else {
        match pool.sync_result(info, now) {
            Err(e) => Err(e),
            Ok((p, u)) => {
                if u.stake_amount + amount > u64::MAX || p.total_staked + amount > u64::MAX {
                    Err(StakingError::ArithmeticOverflow)
                } else {
                    Ok(
                        (
                            Pool { total_staked: (p.total_staked + amount) as u64, ..p },
                            UserStakeInfo {
                                stake_amount: (u.stake_amount + amount) as u64,
                                stake_start_timestamp: if info.stake_amount == 0 {
                                    now
                                } else {
                                    info.stake_start_timestamp
                                },
                                ..u
                            },
                        ),
                    )
                }
            },
        }
    }
}

/// The inbound movement of a deposit, authorized by the depositor.
pub open spec fn stake_transfer(pool: Pool, accounts: Stake, amount: u64) -> Transfer {
    Transfer {
        mint: pool.staking_mint,
        from: accounts.user_staking_wallet.key,
        to: pool.staking_vault,
        amount,
        authority: Authority::Signer(accounts.user),
    }
}

/// Deposits `amount` of the staking token into the pool at time `now`.
pub fn stake(
    pool: &mut Pool,
    user_stake_info: &mut UserStakeInfo,
    accounts: &Stake,
    now: i64,
    amount: u64,
) -> (r: Result<(Transfer, StakeEvent), StakingError>)
    ensures
        match stake_result(*old(pool), *old(user_stake_info), *accounts, now, amount) {
            Ok((p, u)) => {
                &&& r == Ok::<(Transfer, StakeEvent), StakingError>(
                    (
                        stake_transfer(*old(pool), *accounts, amount),
                        StakeEvent { user: accounts.user, amount },
                    ),
                )
                &&& *final(pool) == p
                &&& *final(user_stake_info) == u
            },
            Err(e) => {
                &&& r == Err::<(Transfer, StakeEvent), StakingError>(e)
                &&& *final(pool) == *old(pool)
                &&& *final(user_stake_info) == *old(user_stake_info)
            },
        },
{
    if !(accounts.staking_vault == pool.staking_vault && accounts.staking_mint == pool.staking_mint
        && accounts.user_staking_wallet.mint == pool.staking_mint) {
        return Err(StakingError::AccountMismatch);
    }
    if pool.is_paused {
        return Err(StakingError::ProgramPaused);
    }
    if amount == 0 {
        return Err(StakingError::ZeroStakeAmount);
    }
    let mut p = *pool;
    let mut u = *user_stake_info;
    if let Err(e) = p.update_rewards(&mut u, now) {
        return Err(e);
    }
    let new_stake = match u.stake_amount.checked_add(amount) {
        Some(v) => v,
        None => {
            return Err(StakingError::ArithmeticOverflow);
        },
    };
    let new_total = match p.total_staked.checked_add(amount) {
        Some(v) => v,
        None => {
            return Err(StakingError::ArithmeticOverflow);
        },
    };
    if user_stake_info.stake_amount == 0 {
        u.stake_start_timestamp = now;
    }
    u.stake_amount = new_stake;
    p.total_staked = new_total;
    let transfer = Transfer {
        mint: pool.staking_mint,
        from: accounts.user_staking_wallet.key,
        to: pool.staking_vault,
        amount,
        authority: Authority::Signer(accounts.user),
    };
    *pool = p;
    *user_stake_info = u;
    Ok((transfer, StakeEvent { user: accounts.user, amount }))
}

// ---------------------------------------------------------------------------
// Unstake

pub open spec fn unstake_accounts_match(pool: Pool, accounts: UnStake) -> bool {
    &&& accounts.staking_vault == pool.staking_vault
    &&& accounts.staking_mint == pool.staking_mint
    &&& accounts.user_staking_wallet.mint == pool.staking_mint
}

/// Whether the position's lockup has run out at `now`.
pub open spec fn lockup_elapsed(pool: Pool, info: UserStakeInfo, now: i64) -> bool {
    now >= info.stake_start_timestamp + pool.lockup_duration
}

/// The outcome of a withdrawal of `amount` at `now`.
pub open spec fn unstake_result(
    pool: Pool,
    info: UserStakeInfo,
    accounts: UnStake,
    now: i64,
    amount: u64,
) -> Result<(Pool, UserStakeInfo), StakingError> {
    if !unstake_accounts_match(pool, accounts) {
        Err(StakingError::AccountMismatch)
    } else if pool.is_paused {
        Err(StakingError::ProgramPaused)
    } else if amount == 0 {
        Err(StakingError::ZeroUnstakeAmount)
    } else if info.stake_amount < amount {
        Err(StakingError::InsufficientStakeAmount)
    } else if !lockup_elapsed(pool, info, now) {
        Err(StakingError::LockupPeriodNotEnded)
    } else {
        match pool.sync_result(info, now) {
            Err(e) => Err(e),
            Ok((p, u)) => {
                if p.total_staked < amount {
                    Err(StakingError::ArithmeticOverflow)
                } else {
                    Ok(
                        (
                            Pool { total_staked: (p.total_staked - amount) as u64, ..p },
                            UserStakeInfo {
                                stake_amount: (u.stake_amount - amount) as u64,
                                stake_start_timestamp: if u.stake_amount == amount {
                                    0
                                } else {
                                    u.stake_start_timestamp
                                },
                                ..u
                            },
                        ),
                    )
                }
            },
        }
    }
}

/// The outbound movement of a withdrawal, authorized by the pool's signer.
pub open spec fn unstake_transfer(pool: Pool, accounts: UnStake, amount: u64) -> Transfer {
    Transfer {
        mint: pool.staking_mint,
        from: pool.staking_vault,
        to: accounts.user_staking_wallet.key,
        amount,
        authority: Authority::PoolSigner(pool.pool_bump),
    }
}

/// Withdraws `amount` of the caller's stake at time `now`, once the lockup has
/// run out.
pub fn unstake(
    pool: &mut Pool,
    user_stake_info: &mut UserStakeInfo,
    accounts: &UnStake,
    now: i64,
    amount: u64,
) -> (r: Result<(Transfer, UnstakeEvent), StakingError>)
    ensures
        match unstake_result(*old(pool), *old(user_stake_info), *accounts, now, amount) {
            Ok((p, u)) => {
                &&& r == Ok::<(Transfer, UnstakeEvent), StakingError>(
                    (
                        unstake_transfer(*old(pool), *accounts, amount),
                        UnstakeEvent { user: accounts.user, amount },
                    ),
                )
                &&& *final(pool) == p
                &&& *final(user_stake_info) == u
            },
            Err(e) => {
                &&& r == Err::<(Transfer, UnstakeEvent), StakingError>(e)
                &&& *final(pool) == *old(pool)
                &&& *final(user_stake_info) == *old(user_stake_info)
            },
        },
{
    if !(accounts.staking_vault == pool.staking_vault && accounts.staking_mint == pool.staking_mint
        && accounts.user_staking_wallet.mint == pool.staking_mint) {
        return Err(StakingError::AccountMismatch);
    }
    if pool.is_paused {
        return Err(StakingError::ProgramPaused);
    }
    if amount == 0 {
        return Err(StakingError::ZeroUnstakeAmount);
    }
    if user_stake_info.stake_amount < amount {
        return Err(StakingError::InsufficientStakeAmount);
    }
    let unlock_at: i128 = user_stake_info.stake_start_timestamp as i128
        + pool.lockup_duration as i128;
    if (now as i128) < unlock_at {
        return Err(StakingError::LockupPeriodNotEnded);
    }
    let mut p = *pool;
    let mut u = *user_stake_info;
    if let Err(e) = p.update_rewards(&mut u, now) {
        return Err(e);
    }
    let new_total = match p.total_staked.checked_sub(amount) {
        Some(v) => v,
        None => {
            return Err(StakingError::ArithmeticOverflow);
        },
    };
    u.stake_amount = u.stake_amount - amount;
    p.total_staked = new_total;
    if u.stake_amount == 0 {
        u.stake_start_timestamp = 0;
    }
    let transfer = Transfer {
        mint: pool.staking_mint,
        from: pool.staking_vault,
        to: accounts.user_staking_wallet.key,
        amount,
        authority: Authority::PoolSigner(pool.pool_bump),
    };
    *pool = p;
    *user_stake_info = u;
    Ok((transfer, UnstakeEvent { user: accounts.user, amount }))
}

// ---------------------------------------------------------------------------
// Claim

pub open spec fn claim_accounts_match(pool: Pool, accounts: ClaimRewards) -> bool {
    &&& accounts.reward_vault.key == pool.reward_vault
    &&& accounts.reward_mint == pool.reward_mint
    &&& accounts.user_reward_wallet.mint == pool.reward_mint
}

/// The outcome of a claim at `now`: the position synchronized and emptied of
/// its rewards, which are paid out whole.
pub open spec fn claim_result(
    pool: Pool,
    info: UserStakeInfo,
    accounts: ClaimRewards,
    now: i64,
) -> Result<(Pool, UserStakeInfo), StakingError> {
    if !claim_accounts_match(pool, accounts) {
        Err(StakingError::AccountMismatch)
    } else if pool.is_paused {
        Err(StakingError::ProgramPaused)
    } else {
        match pool.sync_result(info, now) {
            Err(e) => Err(e),
            Ok((p, u)) => {
                if u.rewards == 0 {
                    Err(StakingError::NoRewardsToClaim)
                } else if accounts.reward_vault.amount < u.rewards {
                    Err(StakingError::InsufficientVaultBalance)
                } else {
                    Ok((p, UserStakeInfo { rewards: 0, ..u }))
                }
            },
        }
    }
}

/// What a successful claim at `now` pays out.
pub open spec fn claimed_amount(pool: Pool, info: UserStakeInfo, now: i64) -> u64 {
    info.synced_at(pool.index_at(now)).rewards
}

/// The outbound movement of a claim, authorized by the pool's signer.
pub open spec fn claim_transfer(pool: Pool, accounts: ClaimRewards, amount: u64) -> Transfer {
    Transfer {
        mint: pool.reward_mint,
        from: pool.reward_vault,
        to: accounts.user_reward_wallet.key,
        amount,
        authority: Authority::PoolSigner(pool.pool_bump),
    }
}

/// Pays out everything the caller has earned up to `now`.
pub fn claim_rewards(
    pool: &mut Pool,
    user_stake_info: &mut UserStakeInfo,
    accounts: &ClaimRewards,
    now: i64,
) -> (r: Result<(Transfer, ClaimEvent), StakingError>)
    ensures
        match claim_result(*old(pool), *old(user_stake_info), *accounts, now) {
            Ok((p, u)) => {
                let paid = claimed_amount(*old(pool), *old(user_stake_info), now);
                &&& r == Ok::<(Transfer, ClaimEvent), StakingError>(
                    (
                        claim_transfer(*old(pool), *accounts, paid),
                        ClaimEvent { user: accounts.user, amount: paid },
                    ),
                )
                &&& *final(pool) == p
                &&& *final(user_stake_info) == u
            },
            Err(e) => {
                &&& r == Err::<(Transfer, ClaimEvent), StakingError>(e)
                &&& *final(pool) == *old(pool)
                &&& *final(user_stake_info) == *old(user_stake_info)
            },
        },
{
    if !(accounts.reward_vault.key == pool.reward_vault && accounts.reward_mint == pool.reward_mint
        && accounts.user_reward_wallet.mint == pool.reward_mint) {
        return Err(StakingError::AccountMismatch);
    }
    if pool.is_paused {
        return Err(StakingError::ProgramPaused);
    }
    let mut p = *pool;
    let mut u = *user_stake_info;
    if let Err(e) = p.update_rewards(&mut u, now) {
        return Err(e);
    }
    let rewards_to_claim = u.rewards;
    if rewards_to_claim == 0 {
        return Err(StakingError::NoRewardsToClaim);
    }
    if accounts.reward_vault.amount < rewards_to_claim {
        return Err(StakingError::InsufficientVaultBalance);
    }
    u.rewards = 0;
    let transfer = Transfer {
        mint: pool.reward_mint,
        from: pool.reward_vault,
        to: accounts.user_reward_wallet.key,
        amount: rewards_to_claim,
        authority: Authority::PoolSigner(pool.pool_bump),
    };
    *pool = p;
    *user_stake_info = u;
    Ok((transfer, ClaimEvent { user: accounts.user, amount: rewards_to_claim }))
}

// ---------------------------------------------------------------------------
// Close

/// Whether a position may be closed: nothing staked and nothing left to claim.
pub open spec fn close_result(info: UserStakeInfo) -> Result<(), StakingError> {
    if info.stake_amount != 0 {
        Err(StakingError::StakeNotZero)
    } else if info.rewards != 0 {
        Err(StakingError::RewardsNotClaimed)
    } else {
        Ok(())
    }
}

/// Decides whether the caller's position may be closed; on `Ok` the caller
/// removes the position and its storage bond goes back to its owner.
pub fn close_user_stake_info(_accounts: &CloseUserStakeInfo, user_stake_info: &UserStakeInfo) -> (r:
    Result<(), StakingError>)
    ensures
        r == close_result(*user_stake_info),
{
    if user_stake_info.stake_amount != 0 {
        return Err(StakingError::StakeNotZero);
    }
    if user_stake_info.rewards != 0 {
        return Err(StakingError::RewardsNotClaimed);
    }
    Ok(())
}

// ---------------------------------------------------------------------------
// Admin

/// Whether the presented signer is the pool's admin.
pub open spec fn is_admin(pool: Pool, signer: Address) -> bool {
    signer == pool.admin
}

/// The pool after a change of rate at `now`: accrual up to `now` at the old
/// rate, then the new rate.
pub open spec fn update_reward_rate_result(pool: Pool, accounts: AdminAction, new_rate: u64, now: i64) -> Result<
    Pool,
    StakingError,
> {
    if !is_admin(pool, accounts.admin) {
        Err(StakingError::NotAdmin)
    } else if pool.index_at(now) > u128::MAX {
        Err(StakingError::ArithmeticOverflow)
    } else {
        Ok(Pool { reward_rate: new_rate, ..pool.synced_at(now) })
    }
}

/// Changes the reward rate at `now`; what accrued before `now` accrued at the
/// old rate.
pub fn update_reward_rate(pool: &mut Pool, accounts: &AdminAction, new_rate: u64, now: i64) -> (r: Result<
    UpdateRewardRateEvent,
    StakingError,
>)
    ensures
        match update_reward_rate_result(*old(pool), *accounts, new_rate, now) {
            Ok(p) => r == Ok::<UpdateRewardRateEvent, StakingError>(
                UpdateRewardRateEvent { new_rate },
            ) && *final(pool) == p,
            Err(e) => r == Err::<UpdateRewardRateEvent, StakingError>(e) && *final(pool)
                == *old(pool),
        },
{
    if accounts.admin != pool.admin {
        return Err(StakingError::NotAdmin);
    }
    if let Err(e) = pool.update_global_rewards(now) {
        return Err(e);
    }
    pool.reward_rate = new_rate;
    Ok(UpdateRewardRateEvent { new_rate })
}

pub open spec fn fund_accounts_match(pool: Pool, accounts: FundRewards) -> bool {
    &&& accounts.reward_vault == pool.reward_vault
    &&& accounts.reward_mint == pool.reward_mint
    &&& accounts.funder_wallet.mint == pool.reward_mint
}

/// The movement that funds the reward vault, or why it is refused.
pub open spec fn fund_rewards_result(pool: Pool, accounts: FundRewards, amount: u64) -> Result<
    Transfer,
    StakingError,
> {
    if !is_admin(pool, accounts.admin) {
        Err(StakingError::NotAdmin)
    } else if !fund_accounts_match(pool, accounts) {
        Err(StakingError::AccountMismatch)
    } else if amount == 0 {
        Err(StakingError::ZeroFundAmount)
    } else {
        Ok(
            Transfer {
                mint: pool.reward_mint,
                from: accounts.funder_wallet.key,
                to: pool.reward_vault,
                amount,
                authority: Authority::Signer(accounts.admin),
            },
        )
    }
}

/// Moves `amount` of the reward token from the admin's wallet into the reward
/// vault; the ledger itself is not changed.
pub fn fund_rewards(pool: &Pool, accounts: &FundRewards, amount: u64) -> (r: Result<
    (Transfer, FundRewardsEvent),
    StakingError,
>)
    ensures
        match fund_rewards_result(*pool, *accounts, amount) {
            Ok(t) => r == Ok::<(Transfer, FundRewardsEvent), StakingError>(
                (t, FundRewardsEvent { amount }),
            ),
            Err(e) => r == Err::<(Transfer, FundRewardsEvent), StakingError>(e),
        },
{
    if accounts.admin != pool.admin {
        return Err(StakingError::NotAdmin);
    }
    if !(accounts.reward_vault == pool.reward_vault && accounts.reward_mint == pool.reward_mint
        && accounts.funder_wallet.mint == pool.reward_mint) {
        return Err(StakingError::AccountMismatch);
    }
    if amount == 0 {
        return Err(StakingError::ZeroFundAmount);
    }
    let transfer = Transfer {
        mint: pool.reward_mint,
        from: accounts.funder_wallet.key,
        to: pool.reward_vault,
        amount,
        authority: Authority::Signer(accounts.admin),
    };
    Ok((transfer, FundRewardsEvent { amount }))
}

/// Hands the admin role to `new_admin`; accrual is not touched.
pub fn change_admin(pool: &mut Pool, accounts: &AdminAction, new_admin: Address) -> (r: Result<
    ChangeAdminEvent,
    StakingError,
>)
    ensures
        is_admin(*old(pool), accounts.admin) ==> r == Ok::<ChangeAdminEvent, StakingError>(
            ChangeAdminEvent { new_admin },
        ) && *final(pool) == (Pool { admin: new_admin, ..*old(pool) }),
        !is_admin(*old(pool), accounts.admin) ==> r == Err::<ChangeAdminEvent, StakingError>(
            StakingError::NotAdmin,
        ) && *final(pool) == *old(pool),
{
    if accounts.admin != pool.admin {
        return Err(StakingError::NotAdmin);
    }
    pool.admin = new_admin;
    Ok(ChangeAdminEvent { new_admin })
}

/// The incident-response movement out of the staking vault, or why it is
/// refused. It bypasses all stake accounting.
pub open spec fn emergency_staked_result(pool: Pool, accounts: EmergencyWithdrawStaked, amount: u64) -> Result<
    Transfer,
    StakingError,
> {
    if !is_admin(pool, accounts.admin) {
        Err(StakingError::NotAdmin)
    } else if accounts.staking_vault != pool.staking_vault || accounts.staking_mint
        != pool.staking_mint || accounts.destination_wallet.mint != pool.staking_mint {
        Err(StakingError::AccountMismatch)
    } else {
        Ok(
            Transfer {
                mint: pool.staking_mint,
                from: pool.staking_vault,
                to: accounts.destination_wallet.key,
                amount,
                authority: Authority::PoolSigner(pool.pool_bump),
            },
        )
    }
}

/// Moves `amount` out of the staking vault to any wallet of the staking token,
/// leaving the ledger as it is: the vault may then hold less than is staked.
pub fn emergency_withdraw_staked_tokens(
    pool: &Pool,
    accounts: &EmergencyWithdrawStaked,
    amount: u64,
) -> (r: Result<Transfer, StakingError>)
    ensures
        r == emergency_staked_result(*pool, *accounts, amount),
{
    if accounts.admin != pool.admin {
        return Err(StakingError::NotAdmin);
    }
    if accounts.staking_vault != pool.staking_vault || accounts.staking_mint != pool.staking_mint
        || accounts.destination_wallet.mint != pool.staking_mint {
        return Err(StakingError::AccountMismatch);
    }
    Ok(
        Transfer {
            mint: pool.staking_mint,
            from: pool.staking_vault,
            to: accounts.destination_wallet.key,
            amount,
            authority: Authority::PoolSigner(pool.pool_bump),
        },
    )
}

/// The incident-response movement out of the reward vault, or why it is
/// refused. It bypasses all reward accounting.
pub open spec fn emergency_rewards_result(pool: Pool, accounts: EmergencyWithdrawRewards, amount: u64) -> Result<
    Transfer,
    StakingError,
> {
    if !is_admin(pool, accounts.admin) {
        Err(StakingError::NotAdmin)
    } else if accounts.reward_vault != pool.reward_vault || accounts.reward_mint
        != pool.reward_mint || accounts.destination_wallet.mint != pool.reward_mint {
        Err(StakingError::AccountMismatch)
    } else {
        Ok(
            Transfer {
                mint: pool.reward_mint,
                from: pool.reward_vault,
                to: accounts.destination_wallet.key,
                amount,
                authority: Authority::PoolSigner(pool.pool_bump),
            },
        )
    }
}

/// Moves `amount` out of the reward vault to any wallet of the reward token,
/// leaving the ledger as it is: positions may then be owed more than the vault
/// holds.
pub fn emergency_withdraw_reward_tokens(
    pool: &Pool,
    accounts: &EmergencyWithdrawRewards,
    amount: u64,
) -> (r: Result<Transfer, StakingError>)
    ensures
        r == emergency_rewards_result(*pool, *accounts, amount),
{
    if accounts.admin != pool.admin {
        return Err(StakingError::NotAdmin);
    }
    if accounts.reward_vault != pool.reward_vault || accounts.reward_mint != pool.reward_mint
        || accounts.destination_wallet.mint != pool.reward_mint {
        return Err(StakingError::AccountMismatch);
    }
    Ok(
        Transfer {
            mint: pool.reward_mint,
            from: pool.reward_vault,
            to: accounts.destination_wallet.key,
            amount,
            authority: Authority::PoolSigner(pool.pool_bump),
        },
    )
}

/// The pool after a pause, or why it is refused.
pub open spec fn pause_result(pool: Pool, accounts: AdminAction) -> Result<Pool, StakingError> {
    if !is_admin(pool, accounts.admin) {
        Err(StakingError::NotAdmin)
    } else if pool.is_paused {
        Err(StakingError::AlreadyPaused)
    } else {
        Ok(Pool { is_paused: true, ..pool })
    }
}

/// Stops stake, unstake and claim until the pool is unpaused.
pub fn pause(pool: &mut Pool, accounts: &AdminAction) -> (r: Result<PauseEvent, StakingError>)
    ensures
        match pause_result(*old(pool), *accounts) {
            Ok(p) => r == Ok::<PauseEvent, StakingError>(PauseEvent {  }) && *final(pool) == p,
            Err(e) => r == Err::<PauseEvent, StakingError>(e) && *final(pool) == *old(pool),
        },
{
    if accounts.admin != pool.admin {
        return Err(StakingError::NotAdmin);
    }
    if pool.is_paused {
        return Err(StakingError::AlreadyPaused);
    }
    pool.is_paused = true;
    Ok(PauseEvent {  })
}

/// The pool after an unpause, or why it is refused.
pub open spec fn unpause_result(pool: Pool, accounts: AdminAction) -> Result<Pool, StakingError> {
    if !is_admin(pool, accounts.admin) {
        Err(StakingError::NotAdmin)
    } else if !pool.is_paused {
        Err(StakingError::NotPaused)
    } else {
        Ok(Pool { is_paused: false, ..pool })
    }
}

/// Lets stake, unstake and claim run again.
pub fn unpause(pool: &mut Pool, accounts: &AdminAction) -> (r: Result<UnpauseEvent, StakingError>)
    ensures
        match unpause_result(*old(pool), *accounts) {
            Ok(p) => r == Ok::<UnpauseEvent, StakingError>(UnpauseEvent {  }) && *final(pool) == p,
            Err(e) => r == Err::<UnpauseEvent, StakingError>(e) && *final(pool) == *old(pool),
        },
{
    if accounts.admin != pool.admin {
        return Err(StakingError::NotAdmin);
    }
    if !pool.is_paused {
        return Err(StakingError::NotPaused);
    }
    pool.is_paused = false;
    Ok(UnpauseEvent {  })
}

/// Sets the lockup for later withdrawals; no position's start time changes.
pub fn update_lockup_duration(pool: &mut Pool, accounts: &AdminAction, new_duration: i64) -> (r:
    Result<UpdateLockupDurationEvent, StakingError>)
    ensures
        is_admin(*old(pool), accounts.admin) ==> r == Ok::<
            UpdateLockupDurationEvent,
            StakingError,
        >(UpdateLockupDurationEvent { new_duration }) && *final(pool) == (Pool {
            lockup_duration: new_duration,
            ..*old(pool)
        }),
        !is_admin(*old(pool), accounts.admin) ==> r == Err::<
            UpdateLockupDurationEvent,
            StakingError,
        >(StakingError::NotAdmin) && *final(pool) == *old(pool),
{
    if accounts.admin != pool.admin {
        return Err(StakingError::NotAdmin);
    }
    pool.lockup_duration = new_duration;
    Ok(UpdateLockupDurationEvent { new_duration })
}

} // verus!
