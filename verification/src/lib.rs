//! Accounting and policy rules of an over-collateralized stablecoin protocol.
//!
//! Every operation is one atomic transition on plain records: it reads a
//! record, validates, and either commits the new balances or refuses with an
//! [`ErrorCode`] and leaves the record as it was. Nothing here moves tokens,
//! reads a clock or stores a record: the caller hands in the current time and
//! carries out the [`TokenTransfer`] that an operation hands back.

pub mod arith;
pub mod error;
pub mod governance;
pub mod liquidation;
pub mod position;
pub mod staking;
pub mod transfer;

pub use error::ErrorCode;
pub use governance::{
    create_proposal, initialize, vote_on_proposal, Governance, Proposal, ProposalStatus, VoterId,
    QUORUM_THRESHOLD,
};
pub use liquidation::{partial_liquidate, LIQUIDATION_PENALTY_DIVISOR};
pub use position::{burn_stablecoin, mint_stablecoin, UserAccount};
pub use staking::{distribute_rewards, stake_tokens, withdraw_stake, StakerAccount, REWARD_RATE};
pub use transfer::TokenTransfer;
