use vstd::prelude::*;
use anchor_lang::prelude::Pubkey;
use crate::record::StakeRecord;

verus! {

/// The stored state of one owner's stake.
#[derive(Clone, Copy, Debug, PartialEq, Eq)]
pub struct StakeAccount {
    /// Who the account belongs to.
    pub owner: Pubkey,
    /// The staked amount.
    pub amount: u64,
    /// Reward that has accrued and has not been claimed.
    pub reward: u64,
    /// Reward that has been paid out so far.
    pub claimed_reward: u64,
    /// The time, in seconds, of the last operation on the account.
    pub last_stake_time: i64,
    /// The sum of all amounts staked.
    pub total_deposited: u64,
    /// The sum of all amounts unstaked.
    pub total_withdrawn: u64,
    /// The sum of all reward that was ever settled.
    pub total_rewards_earned: u64,
}

impl View for StakeAccount {
    type V = StakeRecord;

    /// The record that the account stores: `amount` is the principal,
    /// `reward` the unclaimed reward and `last_stake_time` the time of the
    /// last settlement.
    open spec fn view(&self) -> StakeRecord {
        StakeRecord {
            owner: self.owner,
            principal: self.amount as nat,
            unclaimed_reward: self.reward as nat,
            claimed_reward: self.claimed_reward as nat,
            last_settlement_time: self.last_stake_time as int,
            total_deposited: self.total_deposited as nat,
            total_withdrawn: self.total_withdrawn as nat,
            total_rewards_earned: self.total_rewards_earned as nat,
        }
    }
}

} // verus!
