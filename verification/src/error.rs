use vstd::prelude::*;

verus! {

/// Why an operation on a stake account was refused.
#[derive(Clone, Copy, Debug, PartialEq, Eq, Structural)]
pub enum StakingError {
    /// More was asked back than is staked.
    InsufficientStake,
    /// The amount was zero.
    InvalidAmount,
    /// A step of the arithmetic left the range of its integer type.
    Overflow,
}

} // verus!
