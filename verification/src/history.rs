use vstd::prelude::*;
use crate::record::{Outcome, StakeRecord};
use crate::reward::lemma_released_bounds;

verus! {

/// One call on a record that exists: what was asked, and at what time.
pub enum Operation {
    /// A deposit of `amount`.
    Stake { amount: nat, now: int },
    /// A withdrawal of `amount`.
    Unstake { amount: nat, now: int },
    /// A claim of all unclaimed reward.
    ClaimReward { now: int },
}

impl Operation {
    /// The time at which the call is made.
    pub open spec fn now(self) -> int {
        match self {
            Operation::Stake { now, .. } => now,
            Operation::Unstake { now, .. } => now,
            Operation::ClaimReward { now } => now,
        }
    }
}

impl StakeRecord {
    /// What `op` makes of the record, or why it is refused.
    pub open spec fn apply(self, op: Operation) -> Outcome {
        match op {
            Operation::Stake { amount, now } => self.deposit(amount, now),
            Operation::Unstake { amount, now } => self.withdraw(amount, now),
            Operation::ClaimReward { now } => self.claim(now),
        }
    }

    /// The record after `op`: changed as `op` says, or as it was if `op` is
    /// refused.
    pub open spec fn step(self, op: Operation) -> StakeRecord {
        match self.apply(op) {
            Ok(next) => next,
            Err(_) => self,
        }
    }

    /// The record after the calls `ops`, made in order.
    pub open spec fn run(self, ops: Seq<Operation>) -> StakeRecord
        decreases ops.len(),
    {
        if ops.len() == 0 {
            self
        } else {
            self.run(ops.drop_last()).step(ops.last())
        }
    }
}

/// The calls `ops` carry times that never go back, none of them before `start`.
pub open spec fn in_time_order(start: int, ops: Seq<Operation>) -> bool {
    &&& forall|i: int| 0 <= i < ops.len() ==> start <= (#[trigger] ops[i]).now()
    &&& forall|i: int, j: int|
        0 <= i <= j < ops.len() ==> (#[trigger] ops[i]).now() <= (#[trigger] ops[j]).now()
}

/// What one call, accepted or refused, keeps and what it can only raise.
///
/// Each conservation equation that held before holds after; the owner stays;
/// the four lifetime counters do not decrease; and if the call is not made
/// before the last settlement, the settlement time does not decrease and
/// does not pass the time of the call.
pub proof fn lemma_step(s: StakeRecord, op: Operation)
    ensures
        s.principal_conserved() ==> s.step(op).principal_conserved(),
        s.reward_conserved() ==> s.step(op).reward_conserved(),
        s.step(op).owner == s.owner,
        s.step(op).total_deposited >= s.total_deposited,
        s.step(op).total_withdrawn >= s.total_withdrawn,
        s.step(op).total_rewards_earned >= s.total_rewards_earned,
        s.step(op).claimed_reward >= s.claimed_reward,
        s.last_settlement_time <= op.now() ==> s.last_settlement_time <= s.step(
            op,
        ).last_settlement_time <= op.now(),
{
    match op {
        Operation::Unstake { amount, now } => {
            if amount <= s.principal {
                lemma_released_bounds(s.unclaimed_reward + s.pending(now), amount, s.principal);
            }
        },
        _ => {},
    }
}

/// An accepted call leaves the record settled at the time of the call.
pub proof fn lemma_accepted_call_sets_time(s: StakeRecord, op: Operation)
    requires
        s.apply(op) is Ok,
    ensures
        s.step(op).last_settlement_time == op.now(),
{
}

/// Conservation of principal: after any sequence of calls on a record whose
/// principal is its deposits less its withdrawals, it still is.
pub proof fn lemma_principal_conserved(s: StakeRecord, ops: Seq<Operation>)
    requires
        s.principal_conserved(),
    ensures
        s.run(ops).principal_conserved(),
    decreases ops.len(),
{
    if ops.len() > 0 {
        lemma_principal_conserved(s, ops.drop_last());
        lemma_step(s.run(ops.drop_last()), ops.last());
    }
}

/// Conservation of reward: after any sequence of calls on a record whose
/// unclaimed and claimed reward add up to the reward earned, they still do.
pub proof fn lemma_reward_conserved(s: StakeRecord, ops: Seq<Operation>)
    requires
        s.reward_conserved(),
    ensures
        s.run(ops).reward_conserved(),
    decreases ops.len(),
{
    if ops.len() > 0 {
        lemma_reward_conserved(s, ops.drop_last());
        lemma_step(s.run(ops.drop_last()), ops.last());
    }
}

/// The owner of a record is the same after any sequence of calls.
pub proof fn lemma_owner_is_kept(s: StakeRecord, ops: Seq<Operation>)
    ensures
        s.run(ops).owner == s.owner,
    decreases ops.len(),
{
    if ops.len() > 0 {
        lemma_owner_is_kept(s, ops.drop_last());
        lemma_step(s.run(ops.drop_last()), ops.last());
    }
}

/// Monotonicity of the counters: no sequence of calls lowers the lifetime
/// deposits, withdrawals, earned reward or claimed reward.
pub proof fn lemma_counters_never_decrease(s: StakeRecord, ops: Seq<Operation>)
    ensures
        s.run(ops).total_deposited >= s.total_deposited,
        s.run(ops).total_withdrawn >= s.total_withdrawn,
        s.run(ops).total_rewards_earned >= s.total_rewards_earned,
        s.run(ops).claimed_reward >= s.claimed_reward,
    decreases ops.len(),
{
    if ops.len() > 0 {
        lemma_counters_never_decrease(s, ops.drop_last());
        lemma_step(s.run(ops.drop_last()), ops.last());
    }
}

/// Monotonicity of the settlement time: under a clock that never goes back,
/// no sequence of calls lowers the settlement time, and it never lies after
/// the time of the last call.
pub proof fn lemma_time_never_decreases(s: StakeRecord, ops: Seq<Operation>)
    requires
        in_time_order(s.last_settlement_time, ops),
    ensures
        s.run(ops).last_settlement_time >= s.last_settlement_time,
        ops.len() > 0 ==> s.run(ops).last_settlement_time <= ops.last().now(),
    decreases ops.len(),
{
    if ops.len() > 0 {
        let before = ops.drop_last();
        assert forall|i: int| 0 <= i < before.len() implies before[i] == ops[i] by {}
        assert(in_time_order(s.last_settlement_time, before));
        lemma_time_never_decreases(s, before);
        if before.len() > 0 {
            assert(before.last() == ops[ops.len() - 2]);
        }
        lemma_step(s.run(before), ops.last());
    }
}

/// Two calls at the same time: once the first is accepted, nothing is
/// pending at that time, so the second adds no reward to the lifetime total.
pub proof fn lemma_same_time_accrues_nothing(s: StakeRecord, first: Operation, second: Operation)
    requires
        first.now() == second.now(),
        s.apply(first) is Ok,
    ensures
        s.step(first).pending(second.now()) == 0,
        s.step(first).step(second).total_rewards_earned == s.step(first).total_rewards_earned,
{
}

} // verus!
