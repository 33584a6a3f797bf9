use vstd::prelude::*;
use anchor_lang::prelude::Pubkey;

verus! {

/// An account was created.
#[derive(Clone, Copy, Debug, PartialEq, Eq)]
pub struct InitializeEvent {
    /// The owner of the new account.
    pub user: Pubkey,
    /// The time of creation.
    pub timestamp: i64,
}

/// An amount was staked.
#[derive(Clone, Copy, Debug, PartialEq, Eq)]
pub struct StakeEvent {
    /// The owner of the account.
    pub user: Pubkey,
    /// The amount staked by this operation.
    pub amount: u64,
    /// The time of the operation.
    pub timestamp: i64,
    /// The staked amount after the operation.
    pub total_staked: u64,
}

/// An amount was unstaked.
#[derive(Clone, Copy, Debug, PartialEq, Eq)]
pub struct UnstakeEvent {
    /// The owner of the account.
    pub user: Pubkey,
    /// The amount unstaked by this operation.
    pub amount: u64,
    /// The reward released together with the amount.
    pub proportional_reward: u64,
    /// The time of the operation.
    pub timestamp: i64,
    /// The staked amount after the operation.
    pub remaining_stake: u64,
}

/// The unclaimed reward was claimed.
#[derive(Clone, Copy, Debug, PartialEq, Eq)]
pub struct ClaimEvent {
    /// The owner of the account.
    pub user: Pubkey,
    /// The reward paid out by this claim.
    pub amount: u64,
    /// The time of the claim.
    pub timestamp: i64,
    /// The reward paid out over the account's lifetime, this claim included.
    pub total_claimed: u64,
}

} // verus!
