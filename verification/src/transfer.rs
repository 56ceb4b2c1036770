use vstd::prelude::*;

verus! {

/// What the token-transfer service has to carry out for an operation that
/// was authorized. The operation has already committed its bookkeeping; if the
/// service fails, the caller discards the new record.
#[derive(Clone, Copy, Debug, PartialEq, Eq, Structural)]
pub enum TokenTransfer {
    /// Issue `amount` new stablecoin units to the user's token account.
    MintTo { amount: u64 },
    /// Destroy `amount` stablecoin units held in the user's token account.
    Burn { amount: u64 },
    /// Release `amount` staked units to the user.
    Payout { amount: u64 },
}

} // verus!
