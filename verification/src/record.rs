use vstd::prelude::*;
use anchor_lang::prelude::Pubkey;
use crate::error::StakingError;
use crate::reward::{
    accrue, lemma_accrue_monotonic, lemma_released_bounds, lemma_released_is_floor, released,
};

verus! {

/// The ledger's record of one owner, as unbounded numbers.
///
/// This is what a [`crate::StakeAccount`] stands for. The operations below say
/// what each entry point of the ledger does to it, and when it refuses.
pub struct StakeRecord {
    /// Who the record belongs to. Never changes.
    pub owner: Pubkey,
    /// What is currently deposited and can be withdrawn.
    pub principal: nat,
    /// Reward that has accrued and has not been claimed.
    pub unclaimed_reward: nat,
    /// Reward that has been paid out, over the record's lifetime.
    pub claimed_reward: nat,
    /// The time, in seconds, up to which reward has been settled.
    pub last_settlement_time: int,
    /// The sum of all deposits.
    pub total_deposited: nat,
    /// The sum of all withdrawals.
    pub total_withdrawn: nat,
    /// The sum of all reward that was ever settled, claimed or not.
    pub total_rewards_earned: nat,
}

/// What a call makes of a record: the record after it, or the reason why the
/// call is refused and the record stays as it is.
pub type Outcome = Result<StakeRecord, StakingError>;

impl StakeRecord {
    /// The record of an owner who has just joined at time `now`.
    pub open spec fn new(owner: Pubkey, now: int) -> StakeRecord {
        StakeRecord {
            owner,
            principal: 0,
            unclaimed_reward: 0,
            claimed_reward: 0,
            last_settlement_time: now,
            total_deposited: 0,
            total_withdrawn: 0,
            total_rewards_earned: 0,
        }
    }

    /// The principal is what was deposited less what was withdrawn.
    pub open spec fn principal_conserved(self) -> bool {
        self.principal == self.total_deposited - self.total_withdrawn
    }

    /// Every unit of reward ever settled is either unclaimed or claimed.
    pub open spec fn reward_conserved(self) -> bool {
        self.unclaimed_reward + self.claimed_reward == self.total_rewards_earned
    }

    /// Both conservation equations hold.
    pub open spec fn wf(self) -> bool {
        self.principal_conserved() && self.reward_conserved()
    }

    /// Seconds from the last settlement to `now`; negative if `now` lies before it.
    pub open spec fn elapsed(self, now: int) -> int {
        now - self.last_settlement_time
    }

    /// Whether reward is due at `now`: time has passed and something is deposited.
    pub open spec fn accrues(self, now: int) -> bool {
        self.elapsed(now) > 0 && self.principal > 0
    }

    /// The reward that has accrued since the last settlement and is not yet
    /// in the record.
    pub open spec fn pending(self, now: int) -> nat {
        if self.accrues(now) {
            accrue(self.principal, self.elapsed(now) as nat)
        } else {
            0
        }
    }

    /// Settlement at `now`: the pending reward joins the unclaimed reward and
    /// the lifetime total, and the settlement time becomes `now`.
    ///
    /// It overflows when reward is due and the elapsed time is no `i64`, or
    /// when one of the two sums is no `u64`.
    pub open spec fn settle(self, now: int) -> Outcome {
        if self.accrues(now) && self.elapsed(now) > i64::MAX {
            Err(StakingError::Overflow)
        } else if self.unclaimed_reward + self.pending(now) > u64::MAX
            || self.total_rewards_earned + self.pending(now) > u64::MAX {
            Err(StakingError::Overflow)
        } else {
            Ok(
                StakeRecord {
                    unclaimed_reward: self.unclaimed_reward + self.pending(now),
                    total_rewards_earned: self.total_rewards_earned + self.pending(now),
                    last_settlement_time: now,
                    ..self
                },
            )
        }
    }

    /// Depositing `amount` at `now`: settle, then add the amount to the
    /// principal and to the lifetime deposits.
    pub open spec fn deposit(self, amount: nat, now: int) -> Outcome {
        if amount == 0 {
            Err(StakingError::InvalidAmount)
        } else {
            match self.settle(now) {
                Err(e) => Err(e),
                Ok(s) => if s.principal + amount > u64::MAX || s.total_deposited + amount
                    > u64::MAX {
                    Err(StakingError::Overflow)
                } else {
                    Ok(
                        StakeRecord {
                            principal: s.principal + amount,
                            total_deposited: s.total_deposited + amount,
                            ..s
                        },
                    )
                },
            }
        }
    }

    /// The reward that a withdrawal of `amount` at `now` releases: the share
    /// of the settled unclaimed reward that `amount` is of the principal.
    pub open spec fn release(self, amount: nat, now: int) -> nat {
        released(self.unclaimed_reward + self.pending(now), amount, self.principal)
    }

    /// Withdrawing `amount` at `now`: settle, then take the amount from the
    /// principal and move the released share of reward from unclaimed to
    /// claimed.
    pub open spec fn withdraw(self, amount: nat, now: int) -> Outcome {
        if amount == 0 {
            Err(StakingError::InvalidAmount)
        } else if amount > self.principal {
            Err(StakingError::InsufficientStake)
        } else {
            match self.settle(now) {
                Err(e) => Err(e),
                Ok(s) => if s.claimed_reward + self.release(amount, now) > u64::MAX
                    || s.total_withdrawn + amount > u64::MAX {
                    Err(StakingError::Overflow)
                } else {
                    Ok(
                        StakeRecord {
                            principal: (s.principal - amount) as nat,
                            unclaimed_reward: (s.unclaimed_reward - self.release(
                                amount,
                                now,
                            )) as nat,
                            claimed_reward: s.claimed_reward + self.release(amount, now),
                            total_withdrawn: s.total_withdrawn + amount,
                            ..s
                        },
                    )
                },
            }
        }
    }

    /// What a claim at `now` pays out: all reward that is unclaimed once the
    /// pending reward is settled.
    pub open spec fn claimable(self, now: int) -> nat {
        self.unclaimed_reward + self.pending(now)
    }

    /// Claiming at `now`: settle, then move all unclaimed reward to claimed.
    pub open spec fn claim(self, now: int) -> Outcome {
        match self.settle(now) {
            Err(e) => Err(e),
            Ok(s) => if s.claimed_reward + self.claimable(now) > u64::MAX {
                Err(StakingError::Overflow)
            } else {
                Ok(
                    StakeRecord {
                        unclaimed_reward: 0,
                        claimed_reward: s.claimed_reward + self.claimable(now),
                        ..s
                    },
                )
            },
        }
    }
}

/// A new record satisfies both conservation equations, and no reward is
/// pending on it at any time.
pub proof fn lemma_new_is_wf(owner: Pubkey, now: int, later: int)
    ensures
        StakeRecord::new(owner, now).wf(),
        StakeRecord::new(owner, now).pending(later) == 0,
{
}

/// A withdrawal of the whole principal releases all the reward that is
/// unclaimed after settlement, not a rounded share of it, and leaves none.
pub proof fn lemma_full_withdrawal_releases_all(s: StakeRecord, now: int)
    requires
        s.withdraw(s.principal, now) is Ok,
    ensures
        s.release(s.principal, now) == s.claimable(now),
        s.withdraw(s.principal, now).unwrap().unclaimed_reward == 0,
        s.withdraw(s.principal, now).unwrap().principal == 0,
{
    lemma_released_bounds(s.unclaimed_reward + s.pending(now), s.principal, s.principal);
}

/// A withdrawal keeps the reward per unit of principal, up to rounding.
///
/// What stays unclaimed is the exact proportional share of the principal
/// that stays, rounded up to a whole unit: the owner who withdraws takes no
/// more than their share, and what is left is less than one unit above its
/// own.
pub proof fn lemma_withdrawal_keeps_reward_density(s: StakeRecord, amount: nat, now: int)
    requires
        s.withdraw(amount, now) is Ok,
    ensures
        s.withdraw(amount, now).unwrap().unclaimed_reward * s.principal >= s.claimable(now)
            * s.withdraw(amount, now).unwrap().principal,
        s.withdraw(amount, now).unwrap().unclaimed_reward * s.principal < s.claimable(now)
            * s.withdraw(amount, now).unwrap().principal + s.principal,
{
    let reward = s.claimable(now);
    let out = s.release(amount, now);
    let after = s.withdraw(amount, now).unwrap();
    lemma_released_bounds(reward, amount, s.principal);
    lemma_released_is_floor(reward, amount, s.principal);
    assert(after.unclaimed_reward == reward - out);
    assert(after.principal == s.principal - amount);
    assert((reward - out) * s.principal == reward * s.principal - out * s.principal)
        by (nonlinear_arith);
    assert(reward * (s.principal - amount) == reward * s.principal - reward * amount)
        by (nonlinear_arith);
}

/// A claim drains the unclaimed reward: after it nothing is unclaimed, and a
/// second claim at the same time pays out nothing and changes nothing.
pub proof fn lemma_claim_drains(s: StakeRecord, now: int)
    requires
        s.claim(now) is Ok,
    ensures
        s.claim(now).unwrap().unclaimed_reward == 0,
        s.claim(now).unwrap().claimable(now) == 0,
        s.claim(now).unwrap().claim(now) == s.claim(now),
{
}

/// A claim where nothing is unclaimed and nothing is pending is accepted and
/// only moves the settlement time.
pub proof fn lemma_empty_claim_only_moves_time(s: StakeRecord, now: int)
    requires
        s.claimable(now) == 0,
        s.claimed_reward <= u64::MAX,
        s.total_rewards_earned <= u64::MAX,
    ensures
        s.claim(now) == Outcome::Ok(StakeRecord { last_settlement_time: now, ..s }),
{
    if s.accrues(now) && s.elapsed(now) > i64::MAX {
        // So long a time on any principal earns at least what 6000 seconds
        // earn on a principal of 1, and something would be pending.
        lemma_accrue_monotonic(1, 6000, s.principal, s.elapsed(now) as nat);
        assert(accrue(1, 6000) == 2);
    }
}

} // verus!
