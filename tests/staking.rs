use staking_program::accrual::{mul_div, reward_per_token_increment};
use staking_program::{
    change_admin, claim_rewards, close_user_stake_info, emergency_withdraw_reward_tokens,
    emergency_withdraw_staked_tokens, fund_rewards, initialize, pause, stake, unpause, unstake,
    update_lockup_duration, update_reward_rate, Address, AdminAction, Authority, ClaimRewards,
    CloseUserStakeInfo, EmergencyWithdrawRewards, EmergencyWithdrawStaked, ErrorCategory,
    FundRewards, Initialize, Pool, Stake, StakingError, TokenWallet, UnStake, UserStakeInfo,
    PRECISION,
};

fn addr(n: u128) -> Address {
    Address::new(0, n)
}

const ADMIN: u128 = 1;
const STAKING_MINT: u128 = 2;
const STAKING_VAULT: u128 = 3;
const REWARD_MINT: u128 = 4;
const REWARD_VAULT: u128 = 5;
const ALICE: u128 = 10;
const BOB: u128 = 11;

fn new_pool(rate: u64, lockup: i64, now: i64) -> Pool {
    let accounts = Initialize {
        admin: addr(ADMIN),
        staking_mint: addr(STAKING_MINT),
        staking_vault: addr(STAKING_VAULT),
        reward_mint: addr(REWARD_MINT),
        reward_vault: addr(REWARD_VAULT),
        pool_bump: 254,
    };
    initialize(&accounts, rate, lockup, now)
}

fn stake_accounts(user: u128) -> Stake {
    Stake {
        user: addr(user),
        user_staking_wallet: TokenWallet { key: addr(user + 100), mint: addr(STAKING_MINT), amount: 1_000_000 },
        staking_vault: addr(STAKING_VAULT),
        staking_mint: addr(STAKING_MINT),
    }
}

fn unstake_accounts(user: u128) -> UnStake {
    UnStake {
        user: addr(user),
        user_staking_wallet: TokenWallet { key: addr(user + 100), mint: addr(STAKING_MINT), amount: 0 },
        staking_vault: addr(STAKING_VAULT),
        staking_mint: addr(STAKING_MINT),
    }
}

fn claim_accounts(user: u128, vault_balance: u64) -> ClaimRewards {
    ClaimRewards {
        user: addr(user),
        user_reward_wallet: TokenWallet { key: addr(user + 200), mint: addr(REWARD_MINT), amount: 0 },
        reward_vault: TokenWallet { key: addr(REWARD_VAULT), mint: addr(REWARD_MINT), amount: vault_balance },
        reward_mint: addr(REWARD_MINT),
    }
}

fn admin() -> AdminAction {
    AdminAction { admin: addr(ADMIN) }
}

#[test]
fn initialize_sets_up_empty_pool() {
    let pool = new_pool(1000, 60, 42);
    assert_eq!(pool.admin, addr(ADMIN));
    assert_eq!(pool.reward_rate, 1000);
    assert_eq!(pool.lockup_duration, 60);
    assert_eq!(pool.last_update_timestamp, 42);
    assert_eq!(pool.total_staked, 0);
    assert_eq!(pool.reward_per_token_stored, 0);
    assert_eq!(pool.pool_bump, 254);
    assert!(!pool.is_paused);
}

#[test]
fn scenario_single_staker_claims_all() {
    let mut pool = new_pool(1000, 0, 0);
    let mut alice = UserStakeInfo::new_for(&pool);
    let (t, ev) = stake(&mut pool, &mut alice, &stake_accounts(ALICE), 0, 100).unwrap();
    assert_eq!(t.amount, 100);
    assert_eq!(t.from, addr(ALICE + 100));
    assert_eq!(t.to, addr(STAKING_VAULT));
    assert_eq!(t.authority, Authority::Signer(addr(ALICE)));
    assert_eq!(ev.amount, 100);
    let (t, ev) = claim_rewards(&mut pool, &mut alice, &claim_accounts(ALICE, 1_000_000), 10).unwrap();
    assert_eq!(pool.reward_per_token_stored, 100 * PRECISION);
    assert_eq!(t.amount, 10_000);
    assert_eq!(ev.amount, 10_000);
    assert_eq!(t.from, addr(REWARD_VAULT));
    assert_eq!(t.mint, addr(REWARD_MINT));
    assert_eq!(t.authority, Authority::PoolSigner(254));
    assert_eq!(alice.rewards, 0);
    assert_eq!(alice.reward_per_token_paid, 100 * PRECISION);
}

#[test]
fn scenario_late_joiner_earns_only_shared_period() {
    let mut pool = new_pool(1000, 0, 0);
    let mut a = UserStakeInfo::new_for(&pool);
    stake(&mut pool, &mut a, &stake_accounts(ALICE), 0, 100).unwrap();
    let mut b = UserStakeInfo::new_for(&pool);
    stake(&mut pool, &mut b, &stake_accounts(BOB), 5, 100).unwrap();
    assert_eq!(b.reward_per_token_paid, 50 * PRECISION);
    pool.update_rewards(&mut a, 10).unwrap();
    pool.update_rewards(&mut b, 10).unwrap();
    assert_eq!(pool.reward_per_token_stored, 75 * PRECISION);
    assert_eq!(a.rewards, 7500);
    assert_eq!(b.rewards, 2500);
    // what Alice alone earned during [0, 5)
    assert_eq!(a.rewards - b.rewards, 5000);
}

#[test]
fn scenario_pause_blocks_stake_until_unpaused() {
    let mut pool = new_pool(1000, 0, 0);
    let mut a = UserStakeInfo::new_for(&pool);
    pause(&mut pool, &admin()).unwrap();
    let before = (pool, a);
    let err = stake(&mut pool, &mut a, &stake_accounts(ALICE), 1, 100).unwrap_err();
    assert_eq!(err, StakingError::ProgramPaused);
    assert_eq!(err.category(), ErrorCategory::State);
    assert_eq!((pool, a), before);
    unpause(&mut pool, &admin()).unwrap();
    assert!(stake(&mut pool, &mut a, &stake_accounts(ALICE), 2, 100).is_ok());
    assert_eq!(a.stake_amount, 100);
}

#[test]
fn scenario_close_only_when_empty() {
    let mut pool = new_pool(1000, 0, 0);
    let mut position = Some(UserStakeInfo::new_for(&pool));
    let close = CloseUserStakeInfo { user: addr(ALICE) };
    let a = position.as_mut().unwrap();
    stake(&mut pool, a, &stake_accounts(ALICE), 0, 100).unwrap();
    assert_eq!(close_user_stake_info(&close, a), Err(StakingError::StakeNotZero));
    unstake(&mut pool, a, &unstake_accounts(ALICE), 10, 100).unwrap();
    assert_eq!(a.stake_amount, 0);
    assert_eq!(a.stake_start_timestamp, 0);
    assert_eq!(close_user_stake_info(&close, a), Err(StakingError::RewardsNotClaimed));
    claim_rewards(&mut pool, a, &claim_accounts(ALICE, 1_000_000), 10).unwrap();
    assert_eq!(close_user_stake_info(&close, a), Ok(()));
    position = None;
    assert!(position.is_none());
    assert_eq!(pool.total_staked, 0);
}

#[test]
fn lockup_boundary_is_exact() {
    let mut pool = new_pool(1000, 100, 0);
    let mut a = UserStakeInfo::new_for(&pool);
    stake(&mut pool, &mut a, &stake_accounts(ALICE), 50, 100).unwrap();
    assert_eq!(a.stake_start_timestamp, 50);
    let err = unstake(&mut pool, &mut a, &unstake_accounts(ALICE), 149, 10).unwrap_err();
    assert_eq!(err, StakingError::LockupPeriodNotEnded);
    let (t, _) = unstake(&mut pool, &mut a, &unstake_accounts(ALICE), 150, 10).unwrap();
    assert_eq!(t.amount, 10);
    assert_eq!(t.to, addr(ALICE + 100));
    assert_eq!(t.authority, Authority::PoolSigner(254));
    assert_eq!(a.stake_amount, 90);
    assert_eq!(a.stake_start_timestamp, 50);
}

#[test]
fn lockup_change_applies_to_later_unstakes_only() {
    let mut pool = new_pool(0, 0, 0);
    let mut a = UserStakeInfo::new_for(&pool);
    stake(&mut pool, &mut a, &stake_accounts(ALICE), 10, 100).unwrap();
    update_lockup_duration(&mut pool, &admin(), 30).unwrap();
    assert_eq!(a.stake_start_timestamp, 10);
    assert_eq!(
        unstake(&mut pool, &mut a, &unstake_accounts(ALICE), 39, 1).unwrap_err(),
        StakingError::LockupPeriodNotEnded
    );
    assert!(unstake(&mut pool, &mut a, &unstake_accounts(ALICE), 40, 1).is_ok());
}

#[test]
fn accrual_update_twice_at_same_time_is_idempotent() {
    let mut pool = new_pool(777, 0, 0);
    let mut a = UserStakeInfo::new_for(&pool);
    stake(&mut pool, &mut a, &stake_accounts(ALICE), 0, 333).unwrap();
    pool.update_rewards(&mut a, 17).unwrap();
    let once = (pool, a);
    pool.update_rewards(&mut a, 17).unwrap();
    assert_eq!((pool, a), once);
}

#[test]
fn equal_stakes_accrue_equally_within_one_unit() {
    let mut pool = new_pool(1000, 0, 0);
    let mut a = UserStakeInfo::new_for(&pool);
    let mut b = UserStakeInfo::new_for(&pool);
    let mut c = UserStakeInfo::new_for(&pool);
    stake(&mut pool, &mut c, &stake_accounts(12), 0, 1).unwrap();
    stake(&mut pool, &mut a, &stake_accounts(ALICE), 0, 7).unwrap();
    stake(&mut pool, &mut b, &stake_accounts(BOB), 0, 7).unwrap();
    // Alice is synchronized at every second, Bob only at the end.
    for now in 1..=9 {
        pool.update_rewards(&mut a, now).unwrap();
    }
    pool.update_rewards(&mut a, 10).unwrap();
    pool.update_rewards(&mut b, 10).unwrap();
    assert!(b.rewards >= a.rewards);
    assert!(b.rewards - a.rewards <= 9);
    // synchronized at the same moments, they are exactly equal
    let mut d = a;
    let mut e = a;
    pool.update_rewards(&mut d, 20).unwrap();
    pool.update_rewards(&mut e, 20).unwrap();
    assert_eq!(d.rewards, e.rewards);
}

#[test]
fn total_staked_tracks_positions_over_many_users() {
    let mut pool = new_pool(5, 0, 0);
    let mut users: Vec<UserStakeInfo> = Vec::new();
    for _ in 0..4 {
        users.push(UserStakeInfo::new_for(&pool));
    }
    let mut now: i64 = 0;
    for round in 0..20u64 {
        let i = (round % 4) as usize;
        now += 3;
        if round % 3 == 2 {
            let amount = users[i].stake_amount / 2 + 1;
            let _ = unstake(&mut pool, &mut users[i], &unstake_accounts(20 + i as u128), now, amount);
        } else {
            stake(&mut pool, &mut users[i], &stake_accounts(20 + i as u128), now, round + 1).unwrap();
        }
        let sum: u64 = users.iter().map(|u| u.stake_amount).sum();
        assert_eq!(pool.total_staked, sum);
    }
}

#[test]
fn index_never_decreases_over_operations() {
    let mut pool = new_pool(1000, 0, 0);
    let mut a = UserStakeInfo::new_for(&pool);
    let mut last = pool.reward_per_token_stored;
    stake(&mut pool, &mut a, &stake_accounts(ALICE), 0, 3).unwrap();
    for now in [5, 3, 9, 9, 20] {
        pool.update_rewards(&mut a, now).unwrap();
        assert!(pool.reward_per_token_stored >= last);
        last = pool.reward_per_token_stored;
    }
    update_reward_rate(&mut pool, &admin(), 0, 30).unwrap();
    assert!(pool.reward_per_token_stored >= last);
}

#[test]
fn late_position_starts_at_current_index() {
    let mut pool = new_pool(1000, 0, 0);
    let mut a = UserStakeInfo::new_for(&pool);
    stake(&mut pool, &mut a, &stake_accounts(ALICE), 0, 100).unwrap();
    pool.update_rewards(&mut a, 100).unwrap();
    assert!(pool.reward_per_token_stored > 0);
    let b = UserStakeInfo::new_for(&pool);
    assert_eq!(b.reward_per_token_paid, pool.reward_per_token_stored);
    assert_eq!(b.calculate_pending_rewards(&pool), Ok(0));
}

#[test]
fn no_accrual_while_nobody_stakes() {
    let mut pool = new_pool(1000, 0, 0);
    let mut a = UserStakeInfo::new_for(&pool);
    stake(&mut pool, &mut a, &stake_accounts(ALICE), 50, 100).unwrap();
    assert_eq!(pool.reward_per_token_stored, 0);
    assert_eq!(pool.last_update_timestamp, 50);
    pool.update_rewards(&mut a, 51).unwrap();
    assert_eq!(a.rewards, 1000);
}

#[test]
fn regressing_clock_accrues_nothing() {
    let mut pool = new_pool(1000, 0, 100);
    let mut a = UserStakeInfo::new_for(&pool);
    stake(&mut pool, &mut a, &stake_accounts(ALICE), 100, 10).unwrap();
    pool.update_rewards(&mut a, 40).unwrap();
    assert_eq!(pool.reward_per_token_stored, 0);
    assert_eq!(pool.last_update_timestamp, 40);
    assert_eq!(a.rewards, 0);
}

#[test]
fn rate_change_freezes_old_rate_up_to_now() {
    let mut pool = new_pool(1000, 0, 0);
    let mut a = UserStakeInfo::new_for(&pool);
    stake(&mut pool, &mut a, &stake_accounts(ALICE), 0, 100).unwrap();
    let ev = update_reward_rate(&mut pool, &admin(), 10, 10).unwrap();
    assert_eq!(ev.new_rate, 10);
    assert_eq!(pool.reward_rate, 10);
    assert_eq!(pool.reward_per_token_stored, 100 * PRECISION);
    pool.update_rewards(&mut a, 20).unwrap();
    assert_eq!(a.rewards, 10_000 + 100);
}

#[test]
fn rounding_drops_sub_unit_rewards() {
    let mut pool = new_pool(1, 0, 0);
    let mut a = UserStakeInfo::new_for(&pool);
    let mut b = UserStakeInfo::new_for(&pool);
    stake(&mut pool, &mut a, &stake_accounts(ALICE), 0, 1).unwrap();
    stake(&mut pool, &mut b, &stake_accounts(BOB), 0, 2).unwrap();
    pool.update_rewards(&mut a, 1).unwrap();
    // one unit over three staked: 10^12 / 3 per staked unit
    assert_eq!(pool.reward_per_token_stored, 333_333_333_333);
    assert_eq!(a.rewards, 0);
    pool.update_rewards(&mut b, 1).unwrap();
    assert_eq!(b.rewards, 0);
}

#[test]
fn zero_amounts_are_rejected() {
    let mut pool = new_pool(1, 0, 0);
    let mut a = UserStakeInfo::new_for(&pool);
    let e = stake(&mut pool, &mut a, &stake_accounts(ALICE), 0, 0).unwrap_err();
    assert_eq!(e, StakingError::ZeroStakeAmount);
    assert_eq!(e.category(), ErrorCategory::Validation);
    let e = unstake(&mut pool, &mut a, &unstake_accounts(ALICE), 0, 0).unwrap_err();
    assert_eq!(e, StakingError::ZeroUnstakeAmount);
    let fund = FundRewards {
        admin: addr(ADMIN),
        funder_wallet: TokenWallet { key: addr(99), mint: addr(REWARD_MINT), amount: 10 },
        reward_vault: addr(REWARD_VAULT),
        reward_mint: addr(REWARD_MINT),
    };
    assert_eq!(fund_rewards(&pool, &fund, 0).unwrap_err(), StakingError::ZeroFundAmount);
    let (t, ev) = fund_rewards(&pool, &fund, 500).unwrap();
    assert_eq!(t.from, addr(99));
    assert_eq!(t.to, addr(REWARD_VAULT));
    assert_eq!(t.authority, Authority::Signer(addr(ADMIN)));
    assert_eq!(ev.amount, 500);
}

#[test]
fn unstake_more_than_staked_is_rejected() {
    let mut pool = new_pool(1, 0, 0);
    let mut a = UserStakeInfo::new_for(&pool);
    stake(&mut pool, &mut a, &stake_accounts(ALICE), 0, 5).unwrap();
    let e = unstake(&mut pool, &mut a, &unstake_accounts(ALICE), 1, 6).unwrap_err();
    assert_eq!(e, StakingError::InsufficientStakeAmount);
    assert_eq!(a.stake_amount, 5);
}

#[test]
fn claim_rejections_leave_state_untouched() {
    let mut pool = new_pool(1000, 0, 0);
    let mut a = UserStakeInfo::new_for(&pool);
    assert_eq!(
        claim_rewards(&mut pool, &mut a, &claim_accounts(ALICE, 10), 5).unwrap_err(),
        StakingError::NoRewardsToClaim
    );
    stake(&mut pool, &mut a, &stake_accounts(ALICE), 5, 100).unwrap();
    let before = (pool, a);
    assert_eq!(
        claim_rewards(&mut pool, &mut a, &claim_accounts(ALICE, 999), 6).unwrap_err(),
        StakingError::InsufficientVaultBalance
    );
    assert_eq!((pool, a), before);
    let (t, _) = claim_rewards(&mut pool, &mut a, &claim_accounts(ALICE, 1000), 6).unwrap();
    assert_eq!(t.amount, 1000);
}

#[test]
fn admin_operations_require_admin() {
    let mut pool = new_pool(1, 0, 0);
    let intruder = AdminAction { admin: addr(ALICE) };
    let e = pause(&mut pool, &intruder).unwrap_err();
    assert_eq!(e, StakingError::NotAdmin);
    assert_eq!(e.category(), ErrorCategory::Authorization);
    assert_eq!(unpause(&mut pool, &intruder), Err(StakingError::NotAdmin));
    assert_eq!(update_reward_rate(&mut pool, &intruder, 9, 1), Err(StakingError::NotAdmin));
    assert_eq!(update_lockup_duration(&mut pool, &intruder, 9), Err(StakingError::NotAdmin));
    assert_eq!(change_admin(&mut pool, &intruder, addr(ALICE)), Err(StakingError::NotAdmin));
    assert_eq!(pool, new_pool(1, 0, 0));
    let ev = change_admin(&mut pool, &admin(), addr(BOB)).unwrap();
    assert_eq!(ev.new_admin, addr(BOB));
    assert_eq!(pool.admin, addr(BOB));
    assert_eq!(pause(&mut pool, &admin()), Err(StakingError::NotAdmin));
}

#[test]
fn pause_and_unpause_reject_wrong_state() {
    let mut pool = new_pool(1, 0, 0);
    assert_eq!(unpause(&mut pool, &admin()), Err(StakingError::NotPaused));
    pause(&mut pool, &admin()).unwrap();
    assert!(pool.is_paused);
    assert_eq!(pause(&mut pool, &admin()), Err(StakingError::AlreadyPaused));
    let mut a = UserStakeInfo::new_for(&pool);
    assert_eq!(
        unstake(&mut pool, &mut a, &unstake_accounts(ALICE), 1, 1).unwrap_err(),
        StakingError::ProgramPaused
    );
    assert_eq!(
        claim_rewards(&mut pool, &mut a, &claim_accounts(ALICE, 1), 1).unwrap_err(),
        StakingError::ProgramPaused
    );
}

#[test]
fn mismatched_wallet_is_rejected() {
    let mut pool = new_pool(1, 0, 0);
    let mut a = UserStakeInfo::new_for(&pool);
    let mut accounts = stake_accounts(ALICE);
    accounts.user_staking_wallet.mint = addr(REWARD_MINT);
    let e = stake(&mut pool, &mut a, &accounts, 0, 10).unwrap_err();
    assert_eq!(e, StakingError::AccountMismatch);
    assert_eq!(e.category(), ErrorCategory::Validation);
    let mut claim = claim_accounts(ALICE, 10);
    claim.reward_vault.key = addr(STAKING_VAULT);
    assert_eq!(claim_rewards(&mut pool, &mut a, &claim, 0).unwrap_err(), StakingError::AccountMismatch);
}

#[test]
fn stake_overflow_is_rejected() {
    let mut pool = new_pool(0, 0, 0);
    let mut a = UserStakeInfo::new_for(&pool);
    stake(&mut pool, &mut a, &stake_accounts(ALICE), 0, u64::MAX).unwrap();
    let mut b = UserStakeInfo::new_for(&pool);
    let e = stake(&mut pool, &mut b, &stake_accounts(BOB), 0, 1).unwrap_err();
    assert_eq!(e, StakingError::ArithmeticOverflow);
    assert_eq!(e.category(), ErrorCategory::Arithmetic);
    assert_eq!(pool.total_staked, u64::MAX);
    assert_eq!(b.stake_amount, 0);
}

#[test]
fn index_overflow_is_rejected() {
    let mut pool = new_pool(u64::MAX, 0, 0);
    let mut a = UserStakeInfo::new_for(&pool);
    stake(&mut pool, &mut a, &stake_accounts(ALICE), 0, 1).unwrap();
    let before = (pool, a);
    let e = pool.update_rewards(&mut a, i64::MAX).unwrap_err();
    assert_eq!(e, StakingError::ArithmeticOverflow);
    assert_eq!((pool, a), before);
}

#[test]
fn emergency_withdrawals_use_pool_signer() {
    let pool = new_pool(1, 0, 0);
    let dest = TokenWallet { key: addr(77), mint: addr(STAKING_MINT), amount: 0 };
    let accounts = EmergencyWithdrawStaked {
        admin: addr(ADMIN),
        staking_vault: addr(STAKING_VAULT),
        staking_mint: addr(STAKING_MINT),
        destination_wallet: dest,
    };
    let t = emergency_withdraw_staked_tokens(&pool, &accounts, 40).unwrap();
    assert_eq!(t.from, addr(STAKING_VAULT));
    assert_eq!(t.to, addr(77));
    assert_eq!(t.amount, 40);
    assert_eq!(t.authority, Authority::PoolSigner(254));
    let intruder = EmergencyWithdrawStaked { admin: addr(ALICE), ..accounts };
    assert_eq!(emergency_withdraw_staked_tokens(&pool, &intruder, 40), Err(StakingError::NotAdmin));
    let rewards = EmergencyWithdrawRewards {
        admin: addr(ADMIN),
        reward_mint: addr(REWARD_MINT),
        reward_vault: addr(REWARD_VAULT),
        destination_wallet: TokenWallet { key: addr(78), mint: addr(REWARD_MINT), amount: 0 },
    };
    let t = emergency_withdraw_reward_tokens(&pool, &rewards, 41).unwrap();
    assert_eq!(t.from, addr(REWARD_VAULT));
    assert_eq!(t.mint, addr(REWARD_MINT));
    assert_eq!(t.amount, 41);
    let wrong = EmergencyWithdrawRewards { destination_wallet: dest, ..rewards };
    assert_eq!(emergency_withdraw_reward_tokens(&pool, &wrong, 41), Err(StakingError::AccountMismatch));
}

#[test]
fn fixed_point_helpers_multiply_before_dividing() {
    assert_eq!(reward_per_token_increment(10, 1000, 100), Some(100 * PRECISION));
    assert_eq!(reward_per_token_increment(1, 1, 3), Some(333_333_333_333));
    // the product exceeds u128 while the quotient fits
    assert_eq!(mul_div(u128::MAX, 1 << 20, 1 << 30), Some(u128::MAX >> 10));
    assert_eq!(mul_div(u128::MAX, 2, 1), None);
}

#[test]
fn pending_rewards_of_position() {
    let mut pool = new_pool(0, 0, 0);
    pool.reward_per_token_stored = 3 * PRECISION + 1;
    let info = UserStakeInfo { stake_amount: 5, stake_start_timestamp: 0, reward_per_token_paid: PRECISION, rewards: 0 };
    assert_eq!(info.calculate_pending_rewards(&pool), Ok(10));
    let ahead = UserStakeInfo { reward_per_token_paid: 4 * PRECISION, ..info };
    assert_eq!(ahead.calculate_pending_rewards(&pool), Err(StakingError::ArithmeticOverflow));
}

#[test]
fn global_update_moves_index_and_clock_only() {
    let mut pool = new_pool(1000, 0, 0);
    let mut a = UserStakeInfo::new_for(&pool);
    stake(&mut pool, &mut a, &stake_accounts(ALICE), 0, 100).unwrap();
    pool.update_global_rewards(10).unwrap();
    assert_eq!(pool.reward_per_token_stored, 100 * PRECISION);
    assert_eq!(pool.last_update_timestamp, 10);
    assert_eq!(a.reward_per_token_paid, 0);
    assert_eq!(a.calculate_pending_rewards(&pool), Ok(10_000));
    pool.update_global_rewards(10).unwrap();
    assert_eq!(pool.reward_per_token_stored, 100 * PRECISION);
}

#[test]
fn address_halves_are_kept() {
    let a = Address::new(7, 9);
    assert_eq!(a.hi, 7);
    assert_eq!(a.lo, 9);
    assert_ne!(a, Address::new(9, 7));
}
