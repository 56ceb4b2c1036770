use vstd::prelude::*;

verus! {

/// Why an operation was refused. A refused operation has changed nothing.
#[derive(Clone, Copy, Debug, PartialEq, Eq, Structural)]
pub enum ErrorCode {
    /// The collateral held does not cover the amount to be minted.
    InsufficientCollateral,
    /// More stablecoin was to be burned than the position has issued.
    InsufficientBalance,
    /// A checked addition, subtraction or multiplication left the range of its type.
    Overflow,
    /// The position is still sufficiently collateralized.
    NotEligibleForLiquidation,
    /// The voter has already voted on this proposal.
    DuplicateVote,
    /// The proposal has already been resolved.
    ProposalClosed,
    /// A collateral ratio was asked of a position without debt.
    DivisionByZero,
    /// More was to be withdrawn than is staked.
    InsufficientStake,
}

} // verus!
