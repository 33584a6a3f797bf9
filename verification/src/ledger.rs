use vstd::prelude::*;
use anchor_lang::prelude::Pubkey;
use crate::account::StakeAccount;
use crate::error::StakingError;
use crate::events::{ClaimEvent, InitializeEvent, StakeEvent, UnstakeEvent};
use crate::history::{lemma_step, Operation};
use crate::record::{Outcome, StakeRecord};
use crate::reward::{calc_pending_reward, proportional_reward};

verus! {

/// Settles `acct` at `now` without changing it: returns the unclaimed reward
/// and the lifetime total of reward as settlement leaves them.
fn settle(acct: &StakeAccount, now: i64) -> (r: Result<(u64, u64), StakingError>)
    ensures
        r matches Ok(sums) ==> acct@.settle(now as int) matches Ok(s) && s.unclaimed_reward
            == sums.0 && s.total_rewards_earned == sums.1,
        r matches Err(e) ==> acct@.settle(now as int) == Outcome::Err(e),
{
    let mut pending: u64 = 0;
    if now > acct.last_stake_time && acct.amount > 0 {
        let duration = now.checked_sub(acct.last_stake_time).ok_or(StakingError::Overflow)?;
        pending = calc_pending_reward(acct.amount, duration)?;
    }
    let reward = acct.reward.checked_add(pending).ok_or(StakingError::Overflow)?;
    let earned = acct.total_rewards_earned.checked_add(pending).ok_or(StakingError::Overflow)?;
    Ok((reward, earned))
}

/// Creates the account of `user` at time `now`: nothing staked, nothing
/// earned, settled up to `now`. Returns it with the event to publish.
pub fn initialize(user: Pubkey, now: i64) -> (r: (StakeAccount, InitializeEvent))
    ensures
        r.0@ == StakeRecord::new(user, now as int),
        r.0@.wf(),
        r.1 == (InitializeEvent { user, timestamp: now }),
{
    let acct = StakeAccount {
        owner: user,
        amount: 0,
        reward: 0,
        claimed_reward: 0,
        last_stake_time: now,
        total_deposited: 0,
        total_withdrawn: 0,
        total_rewards_earned: 0,
    };
    (acct, InitializeEvent { user: acct.owner, timestamp: acct.last_stake_time })
}

/// Stakes `amount` at time `now`.
///
/// On success the account is the deposit of `amount` into what it was, and
/// the event reports the new staked amount. A zero amount is refused with
/// `InvalidAmount`; a sum or an accrual out of range with `Overflow`. A
/// refused call leaves the account unchanged.
pub fn stake(acct: &mut StakeAccount, amount: u64, now: i64) -> (r: Result<
    StakeEvent,
    StakingError,
>)
    ensures
        r matches Ok(event) ==> old(acct)@.deposit(amount as nat, now as int) == Outcome::Ok(
            final(acct)@,
        ) && event == (StakeEvent {
            user: old(acct).owner,
            amount,
            timestamp: now,
            total_staked: final(acct).amount,
        }),
        r matches Err(e) ==> old(acct)@.deposit(amount as nat, now as int) == Outcome::Err(e)
            && *final(acct) == *old(acct),
        old(acct)@.wf() ==> final(acct)@.wf(),
{
    proof {
        lemma_step(acct@, Operation::Stake { amount: amount as nat, now: now as int });
    }
    if amount == 0 {
        return Err(StakingError::InvalidAmount);
    }
    let (reward, earned) = settle(acct, now)?;
    let staked = acct.amount.checked_add(amount).ok_or(StakingError::Overflow)?;
    let deposited = acct.total_deposited.checked_add(amount).ok_or(StakingError::Overflow)?;

    acct.reward = reward;
    acct.total_rewards_earned = earned;
    acct.amount = staked;
    acct.total_deposited = deposited;
    acct.last_stake_time = now;

    Ok(StakeEvent { user: acct.owner, amount, timestamp: now, total_staked: acct.amount })
}

/// Unstakes `amount` at time `now`.
///
/// On success the account is the withdrawal of `amount` from what it was;
/// the event reports the reward released with the amount and the stake that
/// remains. A zero amount is refused with `InvalidAmount`, an amount above
/// the stake with `InsufficientStake`, a sum or an accrual out of range with
/// `Overflow`. A refused call leaves the account unchanged.
pub fn unstake(acct: &mut StakeAccount, amount: u64, now: i64) -> (r: Result<
    UnstakeEvent,
    StakingError,
>)
    ensures
        r matches Ok(event) ==> old(acct)@.withdraw(amount as nat, now as int) == Outcome::Ok(
            final(acct)@,
        ) && event.user == old(acct).owner && event.amount == amount
            && event.proportional_reward == old(acct)@.release(amount as nat, now as int)
            && event.timestamp == now && event.remaining_stake == final(acct).amount,
        r matches Err(e) ==> old(acct)@.withdraw(amount as nat, now as int) == Outcome::Err(e)
            && *final(acct) == *old(acct),
        old(acct)@.wf() ==> final(acct)@.wf(),
{
    proof {
        lemma_step(acct@, Operation::Unstake { amount: amount as nat, now: now as int });
    }
    if amount == 0 {
        return Err(StakingError::InvalidAmount);
    }
    if amount > acct.amount {
        return Err(StakingError::InsufficientStake);
    }
    let (reward, earned) = settle(acct, now)?;
    let share = proportional_reward(reward, amount, acct.amount);
    let claimed = acct.claimed_reward.checked_add(share).ok_or(StakingError::Overflow)?;
    let withdrawn = acct.total_withdrawn.checked_add(amount).ok_or(StakingError::Overflow)?;

    acct.total_rewards_earned = earned;
    acct.amount = acct.amount - amount;
    acct.reward = reward - share;
    acct.claimed_reward = claimed;
    acct.total_withdrawn = withdrawn;
    acct.last_stake_time = now;

    Ok(
        UnstakeEvent {
            user: acct.owner,
            amount,
            proportional_reward: share,
            timestamp: now,
            remaining_stake: acct.amount,
        },
    )
}

/// Claims all unclaimed reward at time `now`.
///
/// On success the account is the claim applied to what it was. The first
/// component of the result is the reward paid out, which may be zero; the
/// second is the event, which reports the same amount and the lifetime total
/// of claims. An accrual or a sum out of range is refused with `Overflow`,
/// and a refused call leaves the account unchanged.
pub fn claim_reward(acct: &mut StakeAccount, now: i64) -> (r: Result<
    (u64, ClaimEvent),
    StakingError,
>)
    ensures
        r matches Ok(paid) ==> old(acct)@.claim(now as int) == Outcome::Ok(final(acct)@)
            && paid.0 == old(acct)@.claimable(now as int) && paid.1 == (ClaimEvent {
            user: old(acct).owner,
            amount: paid.0,
            timestamp: now,
            total_claimed: final(acct).claimed_reward,
        }),
        r matches Err(e) ==> old(acct)@.claim(now as int) == Outcome::Err(e) && *final(acct)
            == *old(acct),
        old(acct)@.wf() ==> final(acct)@.wf(),
{
    proof {
        lemma_step(acct@, Operation::ClaimReward { now: now as int });
    }
    let (to_claim, earned) = settle(acct, now)?;
    let claimed = acct.claimed_reward.checked_add(to_claim).ok_or(StakingError::Overflow)?;

    acct.total_rewards_earned = earned;
    acct.claimed_reward = claimed;
    acct.reward = 0;
    acct.last_stake_time = now;

    Ok(
        (
            to_claim,
            ClaimEvent {
                user: acct.owner,
                amount: to_claim,
                timestamp: now,
                total_claimed: acct.claimed_reward,
            },
        ),
    )
}

} // verus!
