use vstd::prelude::*;
use crate::error::StakingError;

verus! {

/// The reward that `principal` earns in `elapsed` seconds.
///
/// The rate is 2 units per 100 staked per 60 seconds. The product is taken
/// first and then divided by 60 and by 100, in that order, each division
/// dropping its remainder.
pub open spec fn accrue(principal: nat, elapsed: nat) -> nat {
    principal * elapsed * 2 / 60 / 100
}

/// The part of `reward` that leaves with `amount` out of `principal`:
/// the same fraction of the reward as of the principal, rounded down.
/// Nothing is released from an empty principal.
pub open spec fn released(reward: nat, amount: nat, principal: nat) -> nat {
    if principal > 0 {
        reward * amount / principal
    } else {
        0
    }
}

/// `accrue` does not decrease when the principal or the time grows.
pub proof fn lemma_accrue_monotonic(p1: nat, e1: nat, p2: nat, e2: nat)
    requires
        p1 <= p2,
        e1 <= e2,
    ensures
        accrue(p1, e1) <= accrue(p2, e2),
{
    assert(p1 * e1 <= p2 * e2) by (nonlinear_arith)
        requires
            p1 <= p2,
            e1 <= e2,
    ;
}

/// No time, or no principal, earns nothing.
pub proof fn lemma_accrue_zero(principal: nat, elapsed: nat)
    ensures
        accrue(principal, 0) == 0,
        accrue(0, elapsed) == 0,
{
    assert(principal * 0 == 0) by (nonlinear_arith);
    assert(0 * elapsed == 0) by (nonlinear_arith);
}

/// A share of the reward is never more than the reward, and the whole
/// principal takes the whole reward with it.
pub proof fn lemma_released_bounds(reward: nat, amount: nat, principal: nat)
    requires
        amount <= principal,
    ensures
        released(reward, amount, principal) <= reward,
        amount == principal && principal > 0 ==> released(reward, amount, principal) == reward,
{
    if principal > 0 {
        assert(reward * amount / principal <= reward) by (nonlinear_arith)
            requires
                amount <= principal,
                principal > 0,
        ;
        if amount == principal {
            assert(reward * amount / principal == reward) by (nonlinear_arith)
                requires
                    amount == principal,
                    principal > 0,
            ;
        }
    }
}

/// The released share is the quotient of `reward * amount` by `principal`,
/// rounded down: it is the one number `q` with
/// `q * principal <= reward * amount < (q + 1) * principal`.
pub proof fn lemma_released_is_floor(reward: nat, amount: nat, principal: nat)
    requires
        principal > 0,
    ensures
        released(reward, amount, principal) * principal <= reward * amount,
        reward * amount < released(reward, amount, principal) * principal + principal,
{
    let product = reward * amount;
    assert((product / principal) * principal <= product && product < (product / principal)
        * principal + principal) by (nonlinear_arith)
        requires
            principal > 0,
            product >= 0,
    ;
}

/// Computes the reward that `amount` earns in `duration` seconds.
///
/// The product `amount * duration * 2` is formed in 128 bits with checked
/// multiplications and then divided by 60 and by 100. The result is the exact
/// value of [`accrue`] whenever that value is a `u64`; otherwise the call
/// fails with `Overflow`.
pub fn calc_pending_reward(amount: u64, duration: i64) -> (r: Result<u64, StakingError>)
    requires
        duration >= 0,
    ensures
        r matches Ok(pending) ==> pending == accrue(amount as nat, duration as nat),
        r matches Err(e) ==> e == StakingError::Overflow && accrue(
            amount as nat,
            duration as nat,
        ) > u64::MAX,
{
    proof {
        // A `u64` times a non-negative `i64`, doubled, stays below 2^128:
        // neither multiplication can fail, only the last step can.
        assert(0 <= amount * duration && amount * duration * 2 <= u128::MAX) by (nonlinear_arith)
            requires
                0 <= amount <= u64::MAX,
                0 <= duration <= i64::MAX,
        ;
    }
    let pending = (amount as u128)
        .checked_mul(duration as u128)
        .ok_or(StakingError::Overflow)?
        .checked_mul(2)
        .ok_or(StakingError::Overflow)?  // reward rate (2 per min / 100)
        / 60
        / 100;

    if pending > u64::MAX as u128 {
        Err(StakingError::Overflow)
    } else {
        Ok(pending as u64)
    }
}

/// Computes the reward that leaves with `amount` out of `staked`.
///
/// The product `reward * amount` is formed in 128 bits, where it always
/// fits, so the share is exact.
pub fn proportional_reward(reward: u64, amount: u64, staked: u64) -> (share: u64)
    requires
        amount <= staked,
    ensures
        share == released(reward as nat, amount as nat, staked as nat),
        share <= reward,
{
    if staked > 0 {
        proof {
            assert(reward * amount <= u128::MAX) by (nonlinear_arith)
                requires
                    0 <= reward <= u64::MAX,
                    0 <= amount <= u64::MAX,
            ;
            lemma_released_bounds(reward as nat, amount as nat, staked as nat);
        }
        ((reward as u128) * (amount as u128) / (staked as u128)) as u64
    } else {
        0
    }
}

} // verus!
