//! Properties of the ledger that span several operations or all inputs.
use crate::accounts::{AdminAction, ClaimRewards, Stake, UnStake};
use crate::accrual::{elapsed_seconds, index_increment, PRECISION};
use crate::address::Address;
use crate::error::StakingError;
use crate::instructions::{
    claim_result, close_result, pause_result, stake_result, unpause_result, unstake_accounts_match,
    unstake_result, update_reward_rate_result,
};
use crate::state::{Pool, UserStakeInfo};
use vstd::arithmetic::div_mod::{
    lemma_div_is_ordered, lemma_fundamental_div_mod, lemma_hoist_over_denominator, lemma_mod_bound,
};
use vstd::prelude::*;

verus! {

/// Sum of the stakes of all positions.
pub open spec fn total_of(positions: Seq<UserStakeInfo>) -> int
    decreases positions.len(),
{
    if positions.len() == 0 {
        0
    } else {
        total_of(positions.drop_last()) + positions.last().stake_amount
    }
}

/// A fresh position as a first deposit creates it.
pub open spec fn new_position(pool: Pool) -> UserStakeInfo {
    UserStakeInfo {
        stake_amount: 0,
        stake_start_timestamp: 0,
        reward_per_token_paid: pool.reward_per_token_stored,
        rewards: 0,
    }
}

/// One operation on the pool by some user (by index into the positions) or by
/// the admin.
pub enum Operation {
    Open,
    Stake { user: int, stake_accounts: Stake, now: i64, amount: u64 },
    Unstake { user: int, unstake_accounts: UnStake, now: i64, amount: u64 },
    Claim { user: int, claim_accounts: ClaimRewards, now: i64 },
    Close { user: int },
    UpdateRewardRate { admin: AdminAction, new_rate: u64, now: i64 },
    ChangeAdmin { admin: AdminAction, new_admin: Address },
    Pause { admin: AdminAction },
    Unpause { admin: AdminAction },
    UpdateLockupDuration { admin: AdminAction, new_duration: i64 },
}

/// Pool and positions after one operation; a rejected operation, or one on a
/// position that does not exist, changes nothing.
pub open spec fn apply(pool: Pool, positions: Seq<UserStakeInfo>, op: Operation) -> (
    Pool,
    Seq<UserStakeInfo>,
) {
    match op {
        Operation::Open => (pool, positions.push(new_position(pool))),
        Operation::Stake { user, stake_accounts, now, amount } => {
            if 0 <= user < positions.len() {
                match stake_result(pool, positions[user], stake_accounts, now, amount) {
                    Ok((p, u)) => (p, positions.update(user, u)),
                    Err(_) => (pool, positions),
                }
            } else {
                (pool, positions)
            }
        },
        Operation::Unstake { user, unstake_accounts, now, amount } => {
            if 0 <= user < positions.len() {
                match unstake_result(pool, positions[user], unstake_accounts, now, amount) {
                    Ok((p, u)) => (p, positions.update(user, u)),
                    Err(_) => (pool, positions),
                }
            } else {
                (pool, positions)
            }
        },
        Operation::Claim { user, claim_accounts, now } => {
            if 0 <= user < positions.len() {
                match claim_result(pool, positions[user], claim_accounts, now) {
                    Ok((p, u)) => (p, positions.update(user, u)),
                    Err(_) => (pool, positions),
                }
            } else {
                (pool, positions)
            }
        },
        Operation::Close { user } => {
            if 0 <= user < positions.len() && close_result(positions[user]) is Ok {
                (pool, positions.remove(user))
            } else {
                (pool, positions)
            }
        },
        Operation::UpdateRewardRate { admin, new_rate, now } => {
            match update_reward_rate_result(pool, admin, new_rate, now) {
                Ok(p) => (p, positions),
                Err(_) => (pool, positions),
            }
        },
        Operation::ChangeAdmin { admin, new_admin } => {
            if admin.admin == pool.admin {
                (Pool { admin: new_admin, ..pool }, positions)
            } else {
                (pool, positions)
            }
        },
        Operation::Pause { admin } => {
            match pause_result(pool, admin) {
                Ok(p) => (p, positions),
                Err(_) => (pool, positions),
            }
        },
        Operation::Unpause { admin } => {
            match unpause_result(pool, admin) {
                Ok(p) => (p, positions),
                Err(_) => (pool, positions),
            }
        },
        Operation::UpdateLockupDuration { admin, new_duration } => {
            if admin.admin == pool.admin {
                (Pool { lockup_duration: new_duration, ..pool }, positions)
            } else {
                (pool, positions)
            }
        },
    }
}

/// Pool and positions after a sequence of operations, in order.
pub open spec fn run(pool: Pool, positions: Seq<UserStakeInfo>, ops: Seq<Operation>) -> (
    Pool,
    Seq<UserStakeInfo>,
)
    decreases ops.len(),
{
    if ops.len() == 0 {
        (pool, positions)
    } else {
        let (p, s) = run(pool, positions, ops.drop_last());
        apply(p, s, ops.last())
    }
}

proof fn lemma_total_update(s: Seq<UserStakeInfo>, i: int, u: UserStakeInfo)
    requires
        0 <= i < s.len(),
    ensures
        total_of(s.update(i, u)) == total_of(s) - s[i].stake_amount + u.stake_amount,
    decreases s.len(),
{
    if i == s.len() - 1 {
        assert(s.update(i, u).drop_last() =~= s.drop_last());
    } else {
        assert(s.update(i, u).drop_last() =~= s.drop_last().update(i, u));
        lemma_total_update(s.drop_last(), i, u);
    }
}

proof fn lemma_total_remove(s: Seq<UserStakeInfo>, i: int)
    requires
        0 <= i < s.len(),
    ensures
        total_of(s.remove(i)) == total_of(s) - s[i].stake_amount,
    decreases s.len(),
{
    if i == s.len() - 1 {
        assert(s.remove(i) =~= s.drop_last());
    } else {
        assert(s.remove(i).drop_last() =~= s.drop_last().remove(i));
        lemma_total_remove(s.drop_last(), i);
    }
}

proof fn lemma_apply_keeps_total(pool: Pool, positions: Seq<UserStakeInfo>, op: Operation)
    requires
        pool.total_staked == total_of(positions),
    ensures
        apply(pool, positions, op).0.total_staked == total_of(apply(pool, positions, op).1),
{
    match op {
        Operation::Open => {
            assert(positions.push(new_position(pool)).drop_last() =~= positions);
        },
        Operation::Stake { user, stake_accounts, now, amount } => {
            if 0 <= user < positions.len() {
                if let Ok((p, u)) = stake_result(pool, positions[user], stake_accounts, now, amount) {
                    lemma_total_update(positions, user, u);
                }
            }
        },
        Operation::Unstake { user, unstake_accounts, now, amount } => {
            if 0 <= user < positions.len() {
                if let Ok((p, u)) = unstake_result(pool, positions[user], unstake_accounts, now, amount) {
                    lemma_total_update(positions, user, u);
                }
            }
        },
        Operation::Claim { user, claim_accounts, now } => {
            if 0 <= user < positions.len() {
                if let Ok((p, u)) = claim_result(pool, positions[user], claim_accounts, now) {
                    lemma_total_update(positions, user, u);
                }
            }
        },
        Operation::Close { user } => {
            if 0 <= user < positions.len() && close_result(positions[user]) is Ok {
                lemma_total_remove(positions, user);
            }
        },
        _ => {},
    }
}

/// Across any sequence of operations by any number of users and by the admin,
/// the pool's `total_staked` stays equal to the sum of all positions' stakes.
pub proof fn total_staked_matches_positions(
    pool: Pool,
    positions: Seq<UserStakeInfo>,
    ops: Seq<Operation>,
)
    requires
        pool.total_staked == total_of(positions),
    ensures
        run(pool, positions, ops).0.total_staked == total_of(run(pool, positions, ops).1),
    decreases ops.len(),
{
    if ops.len() > 0 {
        total_staked_matches_positions(pool, positions, ops.drop_last());
        let (p, s) = run(pool, positions, ops.drop_last());
        lemma_apply_keeps_total(p, s, ops.last());
    }
}

/// Bringing the pool to any time never lowers its index.
pub proof fn index_never_decreases(pool: Pool, now: i64)
    ensures
        pool.index_at(now) >= pool.reward_per_token_stored,
{
    if pool.accrues_at(now) {
        let e = elapsed_seconds(now, pool.last_update_timestamp);
        assert(e * pool.reward_rate * (PRECISION as int) >= 0) by (nonlinear_arith)
            requires
                e >= 0,
                pool.reward_rate >= 0,
        ;
        lemma_div_is_ordered(0, e * pool.reward_rate * (PRECISION as int), pool.total_staked as int);
        assert(index_increment(e, pool.reward_rate as int, pool.total_staked as int) >= 0);
    }
}

proof fn lemma_apply_keeps_index(pool: Pool, positions: Seq<UserStakeInfo>, op: Operation)
    ensures
        apply(pool, positions, op).0.reward_per_token_stored >= pool.reward_per_token_stored,
{
    match op {
        Operation::Stake { now, .. } => index_never_decreases(pool, now),
        Operation::Unstake { now, .. } => index_never_decreases(pool, now),
        Operation::Claim { now, .. } => index_never_decreases(pool, now),
        Operation::UpdateRewardRate { now, .. } => index_never_decreases(pool, now),
        _ => {},
    }
}

/// Across any sequence of operations, `reward_per_token_stored` never decreases.
pub proof fn index_is_monotonic(pool: Pool, positions: Seq<UserStakeInfo>, ops: Seq<Operation>)
    ensures
        run(pool, positions, ops).0.reward_per_token_stored >= pool.reward_per_token_stored,
    decreases ops.len(),
{
    if ops.len() > 0 {
        index_is_monotonic(pool, positions, ops.drop_last());
        let (p, s) = run(pool, positions, ops.drop_last());
        lemma_apply_keeps_index(p, s, ops.last());
    }
}

/// Bringing pool and position up to date a second time at the same moment,
/// with nothing in between, succeeds and changes nothing.
pub proof fn accrual_update_is_idempotent(pool: Pool, info: UserStakeInfo, now: i64)
    requires
        pool.sync_result(info, now) is Ok,
    ensures
        ({
            let (p, u) = pool.sync_result(info, now)->Ok_0;
            p.sync_result(u, now) == Ok::<(Pool, UserStakeInfo), StakingError>((p, u))
        }),
{
    let (p, u) = pool.sync_result(info, now)->Ok_0;
    assert(!p.accrues_at(now));
    assert(u.reward_per_token_paid == p.reward_per_token_stored);
    assert(u.stake_amount * 0int == 0);
    assert(u.pending_at(p.index_at(now)) == 0);
    assert(u.synced_at(p.index_at(now)) == u);
    assert(p.synced_at(now) == p);
}

/// Positions with equal stakes and equal checkpoints earn exactly the same up
/// to any index; and one that was brought up to date at some index in between
/// earns at most one unit less than one that was not, from rounding alone.
pub proof fn equal_stakes_earn_equally(a: UserStakeInfo, b: UserStakeInfo, mid: int, end: int)
    requires
        a.stake_amount == b.stake_amount,
        a.reward_per_token_paid == b.reward_per_token_paid,
        a.reward_per_token_paid <= mid <= end <= u128::MAX,
    ensures
        a.pending_at(end) == b.pending_at(end),
        b.pending_at(end) - 1 <= a.pending_at(mid) + a.synced_at(mid).pending_at(end),
        a.pending_at(mid) + a.synced_at(mid).pending_at(end) <= b.pending_at(end),
{
    let s = a.stake_amount as int;
    let c = a.reward_per_token_paid as int;
    let pr = PRECISION as int;
    let x = s * (mid - c);
    let y = s * (end - mid);
    assert(x + y == s * (end - c)) by (nonlinear_arith)
        requires
            x == s * (mid - c),
            y == s * (end - mid),
    ;
    assert(x >= 0 && y >= 0) by (nonlinear_arith)
        requires
            x == s * (mid - c),
            y == s * (end - mid),
            s >= 0,
            mid - c >= 0,
            end - mid >= 0,
    ;
    assert(a.synced_at(mid).reward_per_token_paid == mid);
    assert(a.pending_at(mid) == x / pr);
    assert(a.synced_at(mid).pending_at(end) == y / pr);
    assert(b.pending_at(end) == (x + y) / pr);
    lemma_fundamental_div_mod(x, pr);
    lemma_fundamental_div_mod(y, pr);
    lemma_mod_bound(x, pr);
    lemma_mod_bound(y, pr);
    let qx = x / pr;
    let qy = y / pr;
    let rx = x % pr;
    let ry = y % pr;
    assert(x + y == (rx + ry) + (qx + qy) * pr) by (nonlinear_arith)
        requires
            x == pr * qx + rx,
            y == pr * qy + ry,
    ;
    lemma_hoist_over_denominator(rx + ry, qx + qy, pr as nat);
    lemma_div_is_ordered(0, rx + ry, pr);
    lemma_div_is_ordered(rx + ry, 2 * pr - 1, pr);
    assert((2 * pr - 1) / pr == 1) by (nonlinear_arith)
        requires
            pr == 1_000_000_000_000,
    ;
}

/// A withdrawal that is otherwise allowed is refused one second before the
/// lockup runs out and goes through at the exact second it does.
pub proof fn lockup_boundary(pool: Pool, info: UserStakeInfo, accounts: UnStake, amount: u64)
    requires
        unstake_accounts_match(pool, accounts),
        !pool.is_paused,
        0 < amount <= info.stake_amount <= pool.total_staked,
        i64::MIN < info.stake_start_timestamp + pool.lockup_duration <= i64::MAX,
        pool.sync_result(info, (info.stake_start_timestamp + pool.lockup_duration) as i64) is Ok,
    ensures
        unstake_result(
            pool,
            info,
            accounts,
            (info.stake_start_timestamp + pool.lockup_duration - 1) as i64,
            amount,
        ) == Err::<(Pool, UserStakeInfo), StakingError>(StakingError::LockupPeriodNotEnded),
        unstake_result(
            pool,
            info,
            accounts,
            (info.stake_start_timestamp + pool.lockup_duration) as i64,
            amount,
        ) is Ok,
{
}

/// No position's checkpoint is ahead of the pool's index.
pub open spec fn checkpoints_behind_index(pool: Pool, positions: Seq<UserStakeInfo>) -> bool {
    forall|i: int|
        0 <= i < positions.len() ==> #[trigger] positions[i].reward_per_token_paid
            <= pool.reward_per_token_stored
}

proof fn lemma_apply_keeps_checkpoints(pool: Pool, positions: Seq<UserStakeInfo>, op: Operation)
    requires
        checkpoints_behind_index(pool, positions),
    ensures
        checkpoints_behind_index(apply(pool, positions, op).0, apply(pool, positions, op).1),
{
    lemma_apply_keeps_index(pool, positions, op);
    let (p2, s2) = apply(pool, positions, op);
    match op {
        Operation::Open => {
            assert forall|i: int| 0 <= i < s2.len() implies #[trigger] s2[i].reward_per_token_paid
                <= p2.reward_per_token_stored by {
                if i < positions.len() {
                    assert(s2[i] == positions[i]);
                }
            }
        },
        Operation::Close { user } => {
            if 0 <= user < positions.len() && close_result(positions[user]) is Ok {
                assert forall|i: int| 0 <= i < s2.len() implies #[trigger] s2[i].reward_per_token_paid
                    <= p2.reward_per_token_stored by {
                    if i < user {
                        assert(s2[i] == positions[i]);
                    } else {
                        assert(s2[i] == positions[i + 1]);
                    }
                }
            }
        },
        _ => {
            assert forall|i: int| 0 <= i < s2.len() implies #[trigger] s2[i].reward_per_token_paid
                <= p2.reward_per_token_stored by {
                if s2[i] != positions[i] {
                    match op {
                        Operation::Stake { now, .. } => index_never_decreases(pool, now),
                        Operation::Unstake { now, .. } => index_never_decreases(pool, now),
                        Operation::Claim { now, .. } => index_never_decreases(pool, now),
                        _ => {},
                    }
                }
            }
        },
    }
}

/// Across any sequence of operations, every position's checkpoint stays at or
/// below the pool's current index: no position can be credited for accrual
/// that has not happened.
pub proof fn checkpoints_never_pass_index(
    pool: Pool,
    positions: Seq<UserStakeInfo>,
    ops: Seq<Operation>,
)
    requires
        checkpoints_behind_index(pool, positions),
    ensures
        checkpoints_behind_index(run(pool, positions, ops).0, run(pool, positions, ops).1),
    decreases ops.len(),
{
    if ops.len() > 0 {
        checkpoints_never_pass_index(pool, positions, ops.drop_last());
        let (p, s) = run(pool, positions, ops.drop_last());
        lemma_apply_keeps_checkpoints(p, s, ops.last());
    }
}

/// Earned rewards never shrink, except when their owner claims them, and a
/// claim takes them to exactly zero. (A close removes only positions with no
/// rewards left.)
pub proof fn rewards_fall_only_by_claim(pool: Pool, positions: Seq<UserStakeInfo>, op: Operation)
    ensures
        !(op is Claim) && !(op is Close) ==> forall|i: int|
            0 <= i < positions.len() ==> #[trigger] apply(pool, positions, op).1[i].rewards
                >= positions[i].rewards,
        op is Claim ==> forall|i: int|
            0 <= i < positions.len() ==> {
                let after = #[trigger] apply(pool, positions, op).1[i].rewards;
                after >= positions[i].rewards || after == 0
            },
        op is Close ==> forall|i: int|
            0 <= i < positions.len() && #[trigger] positions[i].rewards > 0 ==> apply(
                pool,
                positions,
                op,
            ).1.contains(positions[i]),
{
    let s2 = apply(pool, positions, op);
    match op {
        Operation::Close { user } => {
            assert forall|i: int|
                0 <= i < positions.len() && #[trigger] positions[i].rewards > 0 implies s2.1.contains(
                positions[i],
            ) by {
                if 0 <= user < positions.len() && close_result(positions[user]) is Ok {
                    if i < user {
                        assert(s2.1[i] == positions[i]);
                    } else {
                        assert(i != user);
                        assert(s2.1[i - 1] == positions[i]);
                    }
                } else {
                    assert(s2.1[i] == positions[i]);
                }
            }
        },
        Operation::Open => {
            assert forall|i: int| 0 <= i < positions.len() implies #[trigger] s2.1[i].rewards
                >= positions[i].rewards by {
                assert(s2.1[i] == positions[i]);
            }
        },
        _ => {},
    }
}

} // verus!
