//! The pool ledger, user positions and the accrual step that keeps them in sync.
use crate::accrual::{
    earned, earned_between, elapsed_seconds, index_increment, reward_per_token_increment,
};
use crate::address::Address;
use crate::error::StakingError;
use vstd::prelude::*;

verus! {

/// The single shared record of the pool's configuration and accrual state.
#[derive(Clone, Copy, Debug, PartialEq, Eq, Structural)]
pub struct Pool {
    pub admin: Address,
    pub staking_mint: Address,
    pub staking_vault: Address,
    pub reward_mint: Address,
    pub reward_vault: Address,
    /// Reward units paid out per second, shared by all stakers.
    pub reward_rate: u64,
    pub last_update_timestamp: i64,
    pub total_staked: u64,
    /// Reward earned per staked unit since the pool was created, scaled by
    /// `PRECISION`; it never decreases.
    pub reward_per_token_stored: u128,
    /// Discriminator of the pool's own derived signer.
    pub pool_bump: u8,
    /// Seconds a stake must stay before it can be withdrawn.
    pub lockup_duration: i64,
    pub is_paused: bool,
}

/// One depositor's position in the pool.
#[derive(Clone, Copy, Debug, PartialEq, Eq, Structural)]
pub struct UserStakeInfo {
    pub stake_amount: u64,
    pub stake_start_timestamp: i64,
    /// The pool's index at this position's last synchronization.
    pub reward_per_token_paid: u128,
    /// Earned and not yet claimed.
    pub rewards: u64,
}

impl Pool {
    /// Whether the index grows when the pool is brought to `now`.
    pub open spec fn accrues_at(self, now: i64) -> bool {
        elapsed_seconds(now, self.last_update_timestamp) > 0 && self.total_staked > 0
    }

    /// The index once the pool is brought to `now`.
    pub open spec fn index_at(self, now: i64) -> int {
        if self.accrues_at(now) {
            self.reward_per_token_stored + index_increment(
                elapsed_seconds(now, self.last_update_timestamp),
                self.reward_rate as int,
                self.total_staked as int,
            )
        } else {
            self.reward_per_token_stored as int
        }
    }

    /// The pool brought to `now`: the index grown, the timestamp moved to `now`.
    pub open spec fn synced_at(self, now: i64) -> Pool {
        Pool { reward_per_token_stored: self.index_at(now) as u128, last_update_timestamp: now, ..self }
    }

    /// The pool and a position both brought to `now`, or the overflow that
    /// stops it.
    pub open spec fn sync_result(self, info: UserStakeInfo, now: i64) -> Result<
        (Pool, UserStakeInfo),
        StakingError,
    > {
        if self.index_at(now) > u128::MAX || !info.sync_fits(self.index_at(now)) {
            Err(StakingError::ArithmeticOverflow)
        } else {
            Ok((self.synced_at(now), info.synced_at(self.index_at(now))))
        }
    }
}

impl UserStakeInfo {
    /// Reward earned since the last synchronization, were the index at `index`.
    pub open spec fn pending_at(self, index: int) -> int {
        earned(self.stake_amount as int, self.reward_per_token_paid as int, index)
    }

    /// Whether synchronizing to `index` neither underflows nor overflows.
    pub open spec fn sync_fits(self, index: int) -> bool {
        self.reward_per_token_paid <= index && self.rewards + self.pending_at(index) <= u64::MAX
    }

    /// The position synchronized to `index`.
    pub open spec fn synced_at(self, index: int) -> UserStakeInfo {
        UserStakeInfo {
            rewards: (self.rewards + self.pending_at(index)) as u64,
            reward_per_token_paid: index as u128,
            ..self
        }
    }

    /// A fresh, empty position, checkpointed at the pool's current index so that
    /// it earns nothing of what accrued before it existed.
    pub fn new_for(pool: &Pool) -> (r: UserStakeInfo)
        ensures
            r == (UserStakeInfo {
                stake_amount: 0,
                stake_start_timestamp: 0,
                reward_per_token_paid: pool.reward_per_token_stored,
                rewards: 0,
            }),
    {
        UserStakeInfo {
            stake_amount: 0,
            stake_start_timestamp: 0,
            reward_per_token_paid: pool.reward_per_token_stored,
            rewards: 0,
        }
    }

    /// Reward earned since this position's checkpoint at the pool's current index.
    ///
    /// Fails when the checkpoint is ahead of the pool or the reward does not
    /// fit in `u64`.
    pub fn calculate_pending_rewards(&self, pool: &Pool) -> (r: Result<u64, StakingError>)
        ensures
            r == (if self.reward_per_token_paid <= pool.reward_per_token_stored
                && self.pending_at(pool.reward_per_token_stored as int) <= u64::MAX {
                Ok(self.pending_at(pool.reward_per_token_stored as int) as u64)
            } else {
                Err(StakingError::ArithmeticOverflow)
            }),
    {
        if self.reward_per_token_paid > pool.reward_per_token_stored {
            return Err(StakingError::ArithmeticOverflow);
        }
        match earned_between(
            self.stake_amount,
            self.reward_per_token_paid,
            pool.reward_per_token_stored,
        ) {
            Some(p) => {
                if p <= u64::MAX as u128 {
                    Ok(p as u64)
                } else {
                    Err(StakingError::ArithmeticOverflow)
                }
            },
            None => Err(StakingError::ArithmeticOverflow),
        }
    }
}

impl Pool {
    /// The pool brought to `now`, computed without touching `self`.
    fn accrue(&self, now: i64) -> (r: Result<Pool, StakingError>)
        ensures
            r == (if self.index_at(now) <= u128::MAX {
                Ok(self.synced_at(now))
            } else {
                Err(StakingError::ArithmeticOverflow)
            }),
    {
        let elapsed: u128 = if now > self.last_update_timestamp {
            (now as i128 - self.last_update_timestamp as i128) as u128
        } else {
            0
        };
        let mut index = self.reward_per_token_stored;
        if elapsed > 0 && self.total_staked > 0 {
            match reward_per_token_increment(elapsed, self.reward_rate, self.total_staked) {
                None => {
                    return Err(StakingError::ArithmeticOverflow);
                },
                Some(inc) => match index.checked_add(inc) {
                    None => {
                        return Err(StakingError::ArithmeticOverflow);
                    },
                    Some(v) => {
                        index = v;
                    },
                },
            }
        }
        Ok(Pool { reward_per_token_stored: index, last_update_timestamp: now, ..*self })
    }

    /// Brings the pool's index to `now`, and with it the given position.
    ///
    /// On overflow nothing is changed.
    pub fn update_rewards(&mut self, user_stake_info: &mut UserStakeInfo, now: i64) -> (r: Result<
        (),
        StakingError,
    >)
        ensures
            match old(self).sync_result(*old(user_stake_info), now) {
                Ok((p, u)) => r is Ok && *final(self) == p && *final(user_stake_info) == u,
                Err(e) => r == Err::<(), StakingError>(e) && *final(self) == *old(self)
                    && *final(user_stake_info) == *old(user_stake_info),
            },
    {
        let synced = match self.accrue(now) {
            Ok(p) => p,
            Err(e) => {
                return Err(e);
            },
        };
        let pending = match user_stake_info.calculate_pending_rewards(&synced) {
            Ok(p) => p,
            Err(e) => {
                return Err(e);
            },
        };
        let rewards = match user_stake_info.rewards.checked_add(pending) {
            Some(v) => v,
            None => {
                return Err(StakingError::ArithmeticOverflow);
            },
        };
        user_stake_info.rewards = rewards;
        user_stake_info.reward_per_token_paid = synced.reward_per_token_stored;
        *self = synced;
        Ok(())
    }

    /// Brings the pool's index to `now` alone, as before a change of rate.
    ///
    /// On overflow nothing is changed.
    pub fn update_global_rewards(&mut self, now: i64) -> (r: Result<(), StakingError>)
        ensures
            old(self).index_at(now) <= u128::MAX ==> r is Ok && *final(self) == old(self).synced_at(now),
            old(self).index_at(now) > u128::MAX ==> r == Err::<(), StakingError>(
                StakingError::ArithmeticOverflow,
            ) && *final(self) == *old(self),
    {
        match self.accrue(now) {
            Ok(p) => {
                *self = p;
                Ok(())
            },
            Err(e) => Err(e),
        }
    }
}

} // verus!
