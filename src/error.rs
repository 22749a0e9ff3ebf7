use vstd::prelude::*;

verus! {

/// Every way an operation on the pool can be rejected.
#[derive(Clone, Copy, Debug, PartialEq, Eq, Structural)]
pub enum StakingError {
    ZeroStakeAmount,
    ZeroUnstakeAmount,
    ZeroFundAmount,
    InsufficientStakeAmount,
    LockupPeriodNotEnded,
    NoRewardsToClaim,
    StakeNotZero,
    RewardsNotClaimed,
    NotAdmin,
    ArithmeticOverflow,
    ProgramPaused,
    AlreadyPaused,
    NotPaused,
    InsufficientVaultBalance,
    /// A wallet, vault or mint presented by the caller is not the one the pool
    /// is configured with.
    AccountMismatch,
}

/// The four families of rejection.
#[derive(Clone, Copy, Debug, PartialEq, Eq, Structural)]
pub enum ErrorCategory {
    /// A zero or otherwise invalid amount, or a wallet of the wrong token.
    Validation,
    /// The pool or the position is not in a state that allows the operation.
    State,
    /// The caller is not the pool's admin.
    Authorization,
    /// A checked computation would not fit its integer type.
    Arithmetic,
}

pub open spec fn category_of(e: StakingError) -> ErrorCategory {
    match e {
        StakingError::ZeroStakeAmount
        | StakingError::ZeroUnstakeAmount
        | StakingError::ZeroFundAmount
        | StakingError::AccountMismatch => ErrorCategory::Validation,
        StakingError::NotAdmin => ErrorCategory::Authorization,
        StakingError::ArithmeticOverflow => ErrorCategory::Arithmetic,
        _ => ErrorCategory::State,
    }
}

impl StakingError {
    /// The family this rejection belongs to.
    pub fn category(&self) -> (r: ErrorCategory)
        ensures
            r == category_of(*self),
    {
        match self {
            StakingError::ZeroStakeAmount
            | StakingError::ZeroUnstakeAmount
            | StakingError::ZeroFundAmount
            | StakingError::AccountMismatch => ErrorCategory::Validation,
            StakingError::NotAdmin => ErrorCategory::Authorization,
            StakingError::ArithmeticOverflow => ErrorCategory::Arithmetic,
            _ => ErrorCategory::State,
        }
    }
}

} // verus!
