//! Fixed-point arithmetic of the reward index.
use vstd::arithmetic::div_mod::{
    lemma_div_is_ordered, lemma_fundamental_div_mod, lemma_hoist_over_denominator, lemma_mod_bound,
};
use vstd::prelude::*;

verus! {

/// Scale of the reward index: one reward unit per staked unit is `PRECISION`.
pub const PRECISION: u128 = 1_000_000_000_000;

/// Seconds from `last` to `now`; zero when the clock stood still or went back.
pub open spec fn elapsed_seconds(now: i64, last: i64) -> int {
    if now > last {
        now - last
    } else {
        0
    }
}

/// Growth of the index when `rate` reward units per second are shared by
/// `total` staked units for `elapsed` seconds (multiplied before divided).
pub open spec fn index_increment(elapsed: int, rate: int, total: int) -> int {
    (elapsed * rate) * (PRECISION as int) / total
}

/// Reward earned by `stake` units while the index moved from `paid` to `stored`.
pub open spec fn earned(stake: int, paid: int, stored: int) -> int {
    stake * (stored - paid) / (PRECISION as int)
}

/// `a * m / d` splits into the quotient of `a` times `m` and the remainder's share.
proof fn lemma_split_quotient(a: int, m: int, d: int)
    requires
        a >= 0,
        m >= 0,
        d > 0,
    ensures
        a * m / d == (a / d) * m + ((a % d) * m) / d,
        0 <= a % d < d,
        a / d >= 0,
        ((a % d) * m) / d >= 0,
{
    lemma_fundamental_div_mod(a, d);
    lemma_mod_bound(a, d);
    let q = a / d;
    let r = a % d;
    assert(a * m == r * m + (q * m) * d) by (nonlinear_arith)
        requires
            a == d * q + r,
    ;
    lemma_hoist_over_denominator(r * m, q * m, d as nat);
    assert(r * m >= 0) by (nonlinear_arith)
        requires
            r >= 0,
            m >= 0,
    ;
    lemma_div_is_ordered(0, r * m, d);
    lemma_div_is_ordered(0, a, d);
}

/// `a * m / d` rounded down, or `None` when the quotient does not fit in `u128`.
///
/// The product itself may exceed `u128`: only the quotient has to fit.
pub fn mul_div(a: u128, m: u128, d: u128) -> (r: Option<u128>)
    requires
        0 < d <= u64::MAX,
        m <= u64::MAX,
    ensures
        r == (if (a as int) * (m as int) / (d as int) <= u128::MAX {
            Some(((a as int) * (m as int) / (d as int)) as u128)
        } else {
            None
        }),
{
    let q = a / d;
    let rem = a % d;
    proof {
        lemma_split_quotient(a as int, m as int, d as int);
        assert(rem * m <= (u64::MAX as int) * (u64::MAX as int)) by (nonlinear_arith)
            requires
                0 <= rem <= u64::MAX,
                0 <= m <= u64::MAX,
        ;
        assert((u64::MAX as int) * (u64::MAX as int) <= u128::MAX) by (nonlinear_arith);
    }
    let low = rem * m / d;
    match q.checked_mul(m) {
        None => None,
        Some(high) => high.checked_add(low),
    }
}

/// The index growth for `elapsed` seconds at `rate` over `total` staked units,
/// or `None` when it does not fit in `u128`.
pub fn reward_per_token_increment(elapsed: u128, rate: u64, total: u64) -> (r: Option<u128>)
    requires
        elapsed <= u64::MAX,
        total > 0,
    ensures
        r == (if index_increment(elapsed as int, rate as int, total as int) <= u128::MAX {
            Some(index_increment(elapsed as int, rate as int, total as int) as u128)
        } else {
            None
        }),
{
    proof {
        assert(elapsed * rate <= (u64::MAX as int) * (u64::MAX as int)) by (nonlinear_arith)
            requires
                0 <= elapsed <= u64::MAX,
                0 <= rate <= u64::MAX,
        ;
        assert((u64::MAX as int) * (u64::MAX as int) <= u128::MAX) by (nonlinear_arith);
    }
    let accrued = elapsed * (rate as u128);
    mul_div(accrued, PRECISION, total as u128)
}

/// The reward `stake` units earned while the index moved from `paid` to
/// `stored`, or `None` when it does not fit in `u128`.
pub fn earned_between(stake: u64, paid: u128, stored: u128) -> (r: Option<u128>)
    requires
        paid <= stored,
    ensures
        r == (if earned(stake as int, paid as int, stored as int) <= u128::MAX {
            Some(earned(stake as int, paid as int, stored as int) as u128)
        } else {
            None
        }),
{
    let delta = stored - paid;
    proof {
        assert(stake * delta == delta * stake) by (nonlinear_arith);
    }
    mul_div(delta, stake as u128, PRECISION)
}

} // verus!
