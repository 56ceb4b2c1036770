//! A user's position and the mint/burn rules on it.

use crate::arith::{safe_add, safe_mul, safe_sub};
use crate::error::ErrorCode;
use crate::transfer::TokenTransfer;
use vstd::prelude::*;

verus! {

/// One user's collateral and the stablecoin issued against it.
#[derive(Clone, Copy, Debug, PartialEq, Eq, Structural)]
pub struct UserAccount {
    /// Collateral units deposited.
    pub collateral_balance: u64,
    /// Stablecoin units issued to the user and not yet burned.
    pub stablecoin_balance: u64,
    /// Collateral units required per stablecoin unit when minting; read as a
    /// percentage when the position is examined for liquidation.
    pub collateral_ratio: u64,
}

impl UserAccount {
    /// The collateral that must be held before `amount` units may be minted.
    pub open spec fn required_collateral(self, amount: u64) -> int {
        amount * self.collateral_ratio
    }

    /// The position after minting `amount`, or the reason for refusing.
    ///
    /// The collateral test looks at the balance as it is before the mint.
    pub open spec fn mint_result(self, amount: u64) -> Result<UserAccount, ErrorCode> {
        if self.required_collateral(amount) > self.collateral_balance {
            Err(ErrorCode::InsufficientCollateral)
        } else if self.stablecoin_balance + amount > u64::MAX {
            Err(ErrorCode::Overflow)
        } else {
            Ok(
                UserAccount {
                    stablecoin_balance: (self.stablecoin_balance + amount) as u64,
                    ..self
                },
            )
        }
    }

    /// The position after burning `amount`, or the reason for refusing.
    /// Collateral stays where it is: burning releases none.
    pub open spec fn burn_result(self, amount: u64) -> Result<UserAccount, ErrorCode> {
        if amount > self.stablecoin_balance {
            Err(ErrorCode::InsufficientBalance)
        } else {
            Ok(
                UserAccount {
                    stablecoin_balance: (self.stablecoin_balance - amount) as u64,
                    ..self
                },
            )
        }
    }
}

/// Mints `amount` stablecoin against the position's collateral.
///
/// Refused with `InsufficientCollateral` exactly when `amount` times the
/// position's ratio exceeds the collateral held (a product beyond `u64` always
/// does), and otherwise with `Overflow` exactly when the new balance would not
/// fit. On success the balance has grown by `amount` and the caller has to have
/// `amount` units issued to the user.
pub fn mint_stablecoin(user_account: &mut UserAccount, amount: u64) -> (res: Result<
    TokenTransfer,
    ErrorCode,
>)
    ensures
        old(user_account).mint_result(amount) matches Ok(after)
            ==> res == Ok::<TokenTransfer, ErrorCode>((TokenTransfer::MintTo { amount }))
                && *final(user_account) == after,
        old(user_account).mint_result(amount) matches Err(e)
            ==> res == Err::<TokenTransfer, ErrorCode>(e)
                && *final(user_account) == *old(user_account),
        res == Err::<TokenTransfer, ErrorCode>(ErrorCode::InsufficientCollateral)
            <==> amount * old(user_account).collateral_ratio > old(user_account).collateral_balance,
        res is Ok
            ==> final(user_account).stablecoin_balance
                == old(user_account).stablecoin_balance + amount,
{
    let required: u64 = match safe_mul(amount, user_account.collateral_ratio) {
        Ok(product) => product,
        Err(_) => {
            return Err(ErrorCode::InsufficientCollateral);
        },
    };
    if user_account.collateral_balance < required {
        return Err(ErrorCode::InsufficientCollateral);
    }
    let balance: u64 = match safe_add(user_account.stablecoin_balance, amount) {
        Ok(sum) => sum,
        Err(e) => {
            return Err(e);
        },
    };
    user_account.stablecoin_balance = balance;
    Ok(TokenTransfer::MintTo { amount })
}

/// Burns `amount` of the stablecoin issued to the position.
///
/// Refused with `InsufficientBalance` exactly when `amount` exceeds the issued
/// balance. On success the balance has shrunk by `amount` and the caller has to
/// have `amount` units destroyed in the user's token account.
pub fn burn_stablecoin(user_account: &mut UserAccount, amount: u64) -> (res: Result<
    TokenTransfer,
    ErrorCode,
>)
    ensures
        old(user_account).burn_result(amount) matches Ok(after)
            ==> res == Ok::<TokenTransfer, ErrorCode>((TokenTransfer::Burn { amount }))
                && *final(user_account) == after,
        old(user_account).burn_result(amount) matches Err(e)
            ==> res == Err::<TokenTransfer, ErrorCode>(e)
                && *final(user_account) == *old(user_account),
{
    if user_account.stablecoin_balance < amount {
        return Err(ErrorCode::InsufficientBalance);
    }
    let balance: u64 = match safe_sub(user_account.stablecoin_balance, amount) {
        Ok(difference) => difference,
        Err(e) => {
            return Err(e);
        },
    };
    user_account.stablecoin_balance = balance;
    Ok(TokenTransfer::Burn { amount })
}

/// Minting an amount and then burning the same amount brings the position
/// back to exactly what it was.
pub proof fn lemma_mint_then_burn_restores(position: UserAccount, amount: u64)
    requires
        position.mint_result(amount) is Ok,
    ensures
        position.mint_result(amount)->Ok_0.burn_result(amount) == Ok::<UserAccount, ErrorCode>(position),
{
}

} // verus!
