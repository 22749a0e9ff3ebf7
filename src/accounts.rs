//! What a caller presents to each operation, and what an operation hands back:
//! the token movement to perform and the record to emit.
use crate::address::Address;
use vstd::prelude::*;

verus! {

/// A token wallet as the ledger sees it: its identity, its token and its balance.
#[derive(Clone, Copy, Debug, PartialEq, Eq, Structural)]
pub struct TokenWallet {
    pub key: Address,
    pub mint: Address,
    pub amount: u64,
}

/// Who authorizes a token movement.
#[derive(Clone, Copy, Debug, PartialEq, Eq, Structural)]
pub enum Authority {
    /// The signature of the account owner presenting the operation.
    Signer(Address),
    /// The pool's own derived signer, identified by its discriminator; only the
    /// ledger itself ever issues it.
    PoolSigner(u8),
}

/// A token movement the ledger asks the transfer service to perform.
#[derive(Clone, Copy, Debug, PartialEq, Eq, Structural)]
pub struct Transfer {
    pub mint: Address,
    pub from: Address,
    pub to: Address,
    pub amount: u64,
    pub authority: Authority,
}

/// Accounts that create the pool.
#[derive(Clone, Copy, Debug, PartialEq, Eq, Structural)]
pub struct Initialize {
    pub admin: Address,
    pub staking_mint: Address,
    pub staking_vault: Address,
    pub reward_mint: Address,
    pub reward_vault: Address,
    pub pool_bump: u8,
}

/// Accounts of a deposit.
#[derive(Clone, Copy, Debug, PartialEq, Eq, Structural)]
pub struct Stake {
    pub user: Address,
    pub user_staking_wallet: TokenWallet,
    pub staking_vault: Address,
    pub staking_mint: Address,
}

/// Accounts of a withdrawal of stake.
#[derive(Clone, Copy, Debug, PartialEq, Eq, Structural)]
pub struct UnStake {
    pub user: Address,
    pub user_staking_wallet: TokenWallet,
    pub staking_vault: Address,
    pub staking_mint: Address,
}

/// Accounts of a reward claim; the vault's balance bounds what can be paid.
#[derive(Clone, Copy, Debug, PartialEq, Eq, Structural)]
pub struct ClaimRewards {
    pub user: Address,
    pub user_reward_wallet: TokenWallet,
    pub reward_vault: TokenWallet,
    pub reward_mint: Address,
}

/// Accounts that close a position.
#[derive(Clone, Copy, Debug, PartialEq, Eq, Structural)]
pub struct CloseUserStakeInfo {
    pub user: Address,
}

/// Accounts of an admin-only change of configuration.
#[derive(Clone, Copy, Debug, PartialEq, Eq, Structural)]
pub struct AdminAction {
    pub admin: Address,
}

/// Accounts that fund the reward vault.
#[derive(Clone, Copy, Debug, PartialEq, Eq, Structural)]
pub struct FundRewards {
    pub admin: Address,
    pub funder_wallet: TokenWallet,
    pub reward_vault: Address,
    pub reward_mint: Address,
}

/// Accounts of an emergency withdrawal from the staking vault.
#[derive(Clone, Copy, Debug, PartialEq, Eq, Structural)]
pub struct EmergencyWithdrawStaked {
    pub admin: Address,
    pub staking_vault: Address,
    pub staking_mint: Address,
    pub destination_wallet: TokenWallet,
}

/// Accounts of an emergency withdrawal from the reward vault.
#[derive(Clone, Copy, Debug, PartialEq, Eq, Structural)]
pub struct EmergencyWithdrawRewards {
    pub admin: Address,
    pub reward_mint: Address,
    pub reward_vault: Address,
    pub destination_wallet: TokenWallet,
}

#[derive(Clone, Copy, Debug, PartialEq, Eq, Structural)]
pub struct StakeEvent {
    pub user: Address,
    pub amount: u64,
}

#[derive(Clone, Copy, Debug, PartialEq, Eq, Structural)]
pub struct UnstakeEvent {
    pub user: Address,
    pub amount: u64,
}

#[derive(Clone, Copy, Debug, PartialEq, Eq, Structural)]
pub struct ClaimEvent {
    pub user: Address,
    pub amount: u64,
}

#[derive(Clone, Copy, Debug, PartialEq, Eq, Structural)]
pub struct UpdateRewardRateEvent {
    pub new_rate: u64,
}

#[derive(Clone, Copy, Debug, PartialEq, Eq, Structural)]
pub struct FundRewardsEvent {
    pub amount: u64,
}

#[derive(Clone, Copy, Debug, PartialEq, Eq, Structural)]
pub struct ChangeAdminEvent {
    pub new_admin: Address,
}

#[derive(Clone, Copy, Debug, PartialEq, Eq, Structural)]
pub struct PauseEvent {}

#[derive(Clone, Copy, Debug, PartialEq, Eq, Structural)]
pub struct UnpauseEvent {}

#[derive(Clone, Copy, Debug, PartialEq, Eq, Structural)]
pub struct UpdateLockupDurationEvent {
    pub new_duration: i64,
}

} // verus!
