//! A stake-accounting ledger.
//!
//! Each owner has one stake account. Reward accrues on the staked amount
//! linearly in time; staking, unstaking and claiming first settle what has
//! accrued since the account was last touched and then apply their own effect.
//! Every operation either applies all of its updates and hands back the event
//! to publish, or fails and leaves the account as it was.
//!
//! - [`account`] holds the stored state, [`events`] what an operation reports
//!   and [`error`] why one is refused.
//! - [`record`] is the same state as unbounded numbers, with the meaning of
//!   each operation on it.
//! - [`reward`] holds the two formulas: accrual over time and the share of
//!   reward that leaves with a withdrawal.
//! - [`ledger`] holds the operations themselves.
//! - [`history`] speaks of sequences of calls and of what every one of them
//!   keeps.
//!
//! The ledger does not read the clock: every operation is told the time.

pub mod account;
pub mod error;
pub mod events;
pub mod history;
mod identity;
pub mod ledger;
pub mod record;
pub mod reward;

pub use account::StakeAccount;
pub use error::StakingError;
pub use events::{ClaimEvent, InitializeEvent, StakeEvent, UnstakeEvent};
pub use history::Operation;
pub use ledger::{claim_reward, initialize, stake, unstake};
pub use record::{Outcome, StakeRecord};
pub use reward::{calc_pending_reward, proportional_reward};
