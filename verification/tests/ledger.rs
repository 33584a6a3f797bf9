use anchor_lang::prelude::Pubkey;
use stake_ledger::{
    claim_reward, initialize, stake, unstake, ClaimEvent, InitializeEvent, StakeAccount,
    StakeEvent, StakingError, UnstakeEvent,
};

fn owner() -> Pubkey {
    Pubkey::new_from_array([7u8; 32])
}

fn account(
    amount: u64,
    reward: u64,
    claimed_reward: u64,
    last_stake_time: i64,
    total_deposited: u64,
    total_withdrawn: u64,
    total_rewards_earned: u64,
) -> StakeAccount {
    StakeAccount {
        owner: owner(),
        amount,
        reward,
        claimed_reward,
        last_stake_time,
        total_deposited,
        total_withdrawn,
        total_rewards_earned,
    }
}

fn conserved(acct: &StakeAccount) -> bool {
    acct.amount as u128 + acct.total_withdrawn as u128 == acct.total_deposited as u128
        && acct.reward as u128 + acct.claimed_reward as u128 == acct.total_rewards_earned as u128
}

#[test]
fn initialize_creates_an_empty_account() {
    let (acct, event) = initialize(owner(), 1_700_000_000);
    assert_eq!(acct, account(0, 0, 0, 1_700_000_000, 0, 0, 0));
    assert_eq!(acct.owner, owner());
    assert_eq!(event, InitializeEvent { user: owner(), timestamp: 1_700_000_000 });
}

#[test]
fn initialize_keeps_the_owner_it_is_given() {
    let other = Pubkey::new_from_array([9u8; 32]);
    let (acct, event) = initialize(other, -5);
    assert_eq!(acct.owner, other);
    assert_ne!(acct.owner, owner());
    assert_eq!(event.user, other);
    assert_eq!(acct.last_stake_time, -5);
}

#[test]
fn first_stake_adds_the_amount_and_earns_nothing() {
    let (mut acct, _) = initialize(owner(), 100);
    let event = stake(&mut acct, 10_000, 4_000).unwrap();
    assert_eq!(acct, account(10_000, 0, 0, 4_000, 10_000, 0, 0));
    assert_eq!(
        event,
        StakeEvent { user: owner(), amount: 10_000, timestamp: 4_000, total_staked: 10_000 }
    );
}

#[test]
fn second_stake_settles_before_it_adds() {
    let (mut acct, _) = initialize(owner(), 0);
    stake(&mut acct, 10_000, 0).unwrap();
    let event = stake(&mut acct, 5_000, 3_600).unwrap();
    // one hour on the old principal of 10_000, not on 15_000
    assert_eq!(acct, account(15_000, 12_000, 0, 3_600, 15_000, 0, 12_000));
    assert_eq!(
        event,
        StakeEvent { user: owner(), amount: 5_000, timestamp: 3_600, total_staked: 15_000 }
    );
}

#[test]
fn stake_of_zero_is_invalid() {
    let mut acct = account(10_000, 5, 1, 0, 10_000, 0, 6);
    let before = acct;
    assert_eq!(stake(&mut acct, 0, 3_600), Err(StakingError::InvalidAmount));
    assert_eq!(acct, before);
}

#[test]
fn stake_beyond_u64_overflows_and_changes_nothing() {
    let mut acct = account(u64::MAX, 0, 0, 50, u64::MAX, 0, 0);
    let before = acct;
    assert_eq!(stake(&mut acct, 1, 50), Err(StakingError::Overflow));
    assert_eq!(acct, before);
}

#[test]
fn stake_checks_the_lifetime_deposits_too() {
    // little is staked, but the lifetime deposits are at the top
    let mut acct = account(10, 0, 0, 50, u64::MAX, u64::MAX - 10, 0);
    let before = acct;
    assert_eq!(stake(&mut acct, 1, 50), Err(StakingError::Overflow));
    assert_eq!(acct, before);
}

#[test]
fn stake_with_overflowing_accrual_changes_nothing() {
    let mut acct = account(u64::MAX - 1, 3, 4, 0, u64::MAX - 1, 0, 7);
    let before = acct;
    assert_eq!(stake(&mut acct, 1, i64::MAX), Err(StakingError::Overflow));
    assert_eq!(acct, before);
}

#[test]
fn settlement_that_overflows_the_unclaimed_reward_is_refused() {
    // pending is 12_000, and only 11_999 fit on top of the unclaimed reward
    let mut acct = account(10_000, u64::MAX - 11_999, 0, 0, 10_000, 0, u64::MAX - 11_999);
    let before = acct;
    assert_eq!(stake(&mut acct, 1, 3_600), Err(StakingError::Overflow));
    assert_eq!(acct, before);
    assert_eq!(unstake(&mut acct, 1, 3_600), Err(StakingError::Overflow));
    assert_eq!(acct, before);
    assert_eq!(claim_reward(&mut acct, 3_600), Err(StakingError::Overflow));
    assert_eq!(acct, before);
    // one second earlier the pending reward is 11_996 and fits
    assert!(claim_reward(&mut acct, 3_599).is_ok());
}

#[test]
fn unstake_from_empty_account_is_insufficient() {
    let (mut acct, _) = initialize(owner(), 10);
    let before = acct;
    assert_eq!(unstake(&mut acct, 1, 20), Err(StakingError::InsufficientStake));
    assert_eq!(acct, before);
}

#[test]
fn unstake_of_more_than_is_staked_is_insufficient() {
    let mut acct = account(500, 0, 0, 0, 500, 0, 0);
    let before = acct;
    assert_eq!(unstake(&mut acct, 501, 60), Err(StakingError::InsufficientStake));
    assert_eq!(acct, before);
}

#[test]
fn unstake_of_zero_is_invalid() {
    let mut acct = account(500, 0, 0, 0, 500, 0, 0);
    let before = acct;
    assert_eq!(unstake(&mut acct, 0, 60), Err(StakingError::InvalidAmount));
    assert_eq!(acct, before);
    // the amount is looked at before the stake
    let (mut empty, _) = initialize(owner(), 0);
    assert_eq!(unstake(&mut empty, 0, 60), Err(StakingError::InvalidAmount));
}

#[test]
fn partial_unstake_releases_a_proportional_share() {
    let (mut acct, _) = initialize(owner(), 0);
    stake(&mut acct, 10_000, 0).unwrap();
    // an hour later 12_000 are pending; a quarter of the stake takes a quarter of them
    let event = unstake(&mut acct, 2_500, 3_600).unwrap();
    assert_eq!(acct, account(7_500, 9_000, 3_000, 3_600, 10_000, 2_500, 12_000));
    assert_eq!(
        event,
        UnstakeEvent {
            user: owner(),
            amount: 2_500,
            proportional_reward: 3_000,
            timestamp: 3_600,
            remaining_stake: 7_500,
        }
    );
}

#[test]
fn partial_unstake_rounds_the_share_down() {
    // no time passes; 100 * 1 / 3 = 33.3..
    let mut acct = account(3, 100, 0, 77, 3, 0, 100);
    let event = unstake(&mut acct, 1, 77).unwrap();
    assert_eq!(event.proportional_reward, 33);
    assert_eq!(acct, account(2, 67, 33, 77, 3, 1, 100));
}

#[test]
fn full_unstake_releases_all_unclaimed_reward() {
    let (mut acct, _) = initialize(owner(), 0);
    stake(&mut acct, 10_000, 0).unwrap();
    stake(&mut acct, 1, 1_800).unwrap();
    assert_eq!(acct.reward, 6_000);
    // 10_001 * 1800 * 2 / 60 / 100 = 6_000 more
    let event = unstake(&mut acct, 10_001, 3_600).unwrap();
    assert_eq!(event.proportional_reward, 12_000);
    assert_eq!(event.remaining_stake, 0);
    assert_eq!(acct, account(0, 0, 12_000, 3_600, 10_001, 10_001, 12_000));
}

#[test]
fn unstake_share_is_exact_for_large_values() {
    // reward * amount does not fit in 64 bits
    let mut acct = account(u64::MAX, u64::MAX, 0, 0, u64::MAX, 0, u64::MAX);
    let event = unstake(&mut acct, u64::MAX - 1, 0).unwrap();
    assert_eq!(event.proportional_reward, u64::MAX - 1);
    assert_eq!(acct, account(1, 1, u64::MAX - 1, 0, u64::MAX, u64::MAX - 1, u64::MAX));
}

#[test]
fn unstake_that_overflows_a_counter_is_refused() {
    // the counters below do not add up; the sums are checked all the same
    let mut acct = account(10, 0, 0, 0, 10, u64::MAX, 0);
    let before = acct;
    assert_eq!(unstake(&mut acct, 1, 0), Err(StakingError::Overflow));
    assert_eq!(acct, before);
    let mut acct = account(10, 10, u64::MAX, 0, 10, 0, 10);
    let before = acct;
    assert_eq!(unstake(&mut acct, 5, 0), Err(StakingError::Overflow));
    assert_eq!(acct, before);
}

#[test]
fn claim_pays_out_settled_reward_and_drains_it() {
    let (mut acct, _) = initialize(owner(), 1_000);
    stake(&mut acct, 10_000, 1_000).unwrap();
    let (paid, event) = claim_reward(&mut acct, 4_600).unwrap();
    assert_eq!(paid, 12_000);
    assert_eq!(acct, account(10_000, 0, 12_000, 4_600, 10_000, 0, 12_000));
    assert_eq!(
        event,
        ClaimEvent { user: owner(), amount: 12_000, timestamp: 4_600, total_claimed: 12_000 }
    );
}

#[test]
fn second_claim_at_the_same_time_pays_nothing() {
    let (mut acct, _) = initialize(owner(), 1_000);
    stake(&mut acct, 10_000, 1_000).unwrap();
    claim_reward(&mut acct, 4_600).unwrap();
    let after_first = acct;
    let (paid, event) = claim_reward(&mut acct, 4_600).unwrap();
    assert_eq!(paid, 0);
    assert_eq!(acct, after_first);
    assert_eq!(
        event,
        ClaimEvent { user: owner(), amount: 0, timestamp: 4_600, total_claimed: 12_000 }
    );
}

#[test]
fn claim_adds_pending_reward_to_what_was_already_unclaimed() {
    let mut acct = account(10_000, 500, 40, 0, 10_000, 0, 540);
    let (paid, event) = claim_reward(&mut acct, 3_600).unwrap();
    assert_eq!(paid, 12_500);
    assert_eq!(event.total_claimed, 12_540);
    assert_eq!(acct, account(10_000, 0, 12_540, 3_600, 10_000, 0, 12_540));
}

#[test]
fn claim_of_nothing_only_moves_the_time() {
    let (mut acct, _) = initialize(owner(), 10);
    let (paid, event) = claim_reward(&mut acct, 99).unwrap();
    assert_eq!(paid, 0);
    assert_eq!(acct, account(0, 0, 0, 99, 0, 0, 0));
    assert_eq!(event, ClaimEvent { user: owner(), amount: 0, timestamp: 99, total_claimed: 0 });
}

#[test]
fn claim_that_overflows_the_claimed_reward_is_refused() {
    let mut acct = account(0, 2, u64::MAX - 1, 0, 0, 0, 1);
    let before = acct;
    assert_eq!(claim_reward(&mut acct, 0), Err(StakingError::Overflow));
    assert_eq!(acct, before);
}

#[test]
fn same_time_operations_accrue_nothing() {
    let (mut acct, _) = initialize(owner(), 0);
    stake(&mut acct, 10_000, 0).unwrap();
    stake(&mut acct, 10_000, 3_600).unwrap();
    assert_eq!(acct.total_rewards_earned, 12_000);
    stake(&mut acct, 1, 3_600).unwrap();
    assert_eq!(acct.total_rewards_earned, 12_000);
    unstake(&mut acct, 1, 3_600).unwrap();
    assert_eq!(acct.total_rewards_earned, 12_000);
    claim_reward(&mut acct, 3_600).unwrap();
    assert_eq!(acct.total_rewards_earned, 12_000);
    assert_eq!(acct.last_stake_time, 3_600);
}

#[test]
fn earlier_time_skips_settlement() {
    let mut acct = account(10_000, 0, 0, 5_000, 10_000, 0, 0);
    stake(&mut acct, 1, 1_000).unwrap();
    assert_eq!(acct, account(10_001, 0, 0, 1_000, 10_001, 0, 0));
    let mut acct = account(10_000, 0, 0, i64::MAX, 10_000, 0, 0);
    let (paid, _) = claim_reward(&mut acct, i64::MIN).unwrap();
    assert_eq!(paid, 0);
    assert_eq!(acct.last_stake_time, i64::MIN);
}

#[test]
fn elapsed_time_beyond_i64_overflows_only_where_reward_is_due() {
    let mut acct = account(1, 0, 0, -1, 1, 0, 0);
    let before = acct;
    assert_eq!(claim_reward(&mut acct, i64::MAX), Err(StakingError::Overflow));
    assert_eq!(acct, before);
    // the longest time that is an i64 is accepted
    let mut acct = account(1, 0, 0, 0, 1, 0, 0);
    let (paid, _) = claim_reward(&mut acct, i64::MAX).unwrap();
    assert_eq!(paid, 3_074_457_345_618_258);
    // nothing staked, nothing due: the time is not even measured
    let mut acct = account(0, 0, 0, -1, 0, 0, 0);
    let (paid, _) = claim_reward(&mut acct, i64::MAX).unwrap();
    assert_eq!(paid, 0);
    assert_eq!(acct.last_stake_time, i64::MAX);
}

#[test]
fn conservation_holds_after_each_step() {
    let (mut acct, _) = initialize(owner(), 0);
    assert!(conserved(&acct));
    stake(&mut acct, 1_000, 10).unwrap();
    assert!(conserved(&acct));
    stake(&mut acct, 2_345, 700).unwrap();
    assert!(conserved(&acct));
    unstake(&mut acct, 45, 5_000).unwrap();
    assert!(conserved(&acct));
    claim_reward(&mut acct, 9_000).unwrap();
    assert!(conserved(&acct));
    assert!(unstake(&mut acct, 1_000_000, 9_500).is_err());
    assert!(conserved(&acct));
    unstake(&mut acct, 3_300, 20_000).unwrap();
    assert!(conserved(&acct));
    assert_eq!(acct.amount, 0);
    assert_eq!(acct.reward, 0);
    // 1_000 for 690 s: 230; 3_345 for 4_300 s: 4_794; 3_300 for 4_000 s and for 11_000 s: 4_400 and 12_100
    assert_eq!(acct.total_rewards_earned, 230 + 4_794 + 4_400 + 12_100);
    assert_eq!(acct.claimed_reward, acct.total_rewards_earned);
}

#[test]
fn counters_and_time_never_decrease() {
    let (mut acct, _) = initialize(owner(), 0);
    let mut previous = acct;
    let amounts = [500u64, 0, 20, 700, 1, 100_000, 3];
    let mut now: i64 = 0;
    for (i, amount) in amounts.iter().enumerate() {
        now += 1_000;
        let _ = match i % 3 {
            0 => stake(&mut acct, *amount, now).map(|_| ()),
            1 => unstake(&mut acct, *amount, now).map(|_| ()),
            _ => claim_reward(&mut acct, now).map(|_| ()),
        };
        assert!(acct.total_deposited >= previous.total_deposited);
        assert!(acct.total_withdrawn >= previous.total_withdrawn);
        assert!(acct.total_rewards_earned >= previous.total_rewards_earned);
        assert!(acct.claimed_reward >= previous.claimed_reward);
        assert!(acct.last_stake_time >= previous.last_stake_time);
        assert_eq!(acct.owner, previous.owner);
        assert!(conserved(&acct));
        previous = acct;
    }
    assert_eq!(acct.last_stake_time, 7_000);
}
