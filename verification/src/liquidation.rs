//! Liquidation of positions whose collateral no longer covers their debt.

use crate::arith::{mul_div, safe_sub};
use crate::error::ErrorCode;
use crate::position::UserAccount;
use vstd::prelude::*;

verus! {

/// A liquidation keeps back one part in this many of the liquidated amount as
/// a penalty: a fixed tenth.
pub const LIQUIDATION_PENALTY_DIVISOR: u64 = 10;

/// The penalty on liquidating `amount`: a tenth of it, rounded down.
pub open spec fn liquidation_penalty(amount: u64) -> int {
    (amount / LIQUIDATION_PENALTY_DIVISOR) as int
}

/// The collateral that a liquidation of `amount` takes from the position: the
/// amount less the penalty.
pub open spec fn collateral_seized(amount: u64) -> int {
    amount - liquidation_penalty(amount)
}

impl UserAccount {
    /// Collateral as a percentage of the stablecoin issued, rounded down.
    /// Meaningful only for a position with debt.
    pub open spec fn collateral_percent(self) -> int
        recommends
            self.stablecoin_balance > 0,
    {
        self.collateral_balance * 100 / (self.stablecoin_balance as int)
    }

    /// Whether the position may be liquidated: it has debt, and its collateral
    /// percentage lies strictly below its ratio.
    pub open spec fn undercollateralized(self) -> bool {
        self.stablecoin_balance > 0 && self.collateral_percent() < self.collateral_ratio
    }

    /// The position after liquidating `amount` of its debt, or the reason for
    /// refusing.
    pub open spec fn liquidate_result(self, amount: u64) -> Result<UserAccount, ErrorCode> {
        if self.stablecoin_balance == 0 {
            Err(ErrorCode::DivisionByZero)
        } else if !self.undercollateralized() {
            Err(ErrorCode::NotEligibleForLiquidation)
        } else if amount > self.stablecoin_balance
            || collateral_seized(amount) > self.collateral_balance {
            Err(ErrorCode::Overflow)
        } else {
            Ok(
                UserAccount {
                    stablecoin_balance: (self.stablecoin_balance - amount) as u64,
                    collateral_balance: (self.collateral_balance
                        - collateral_seized(amount)) as u64,
                    ..self
                },
            )
        }
    }
}

/// Liquidates `liquidation_amount` of an under-collateralized position.
///
/// Refused with `DivisionByZero` exactly when the position has no debt;
/// otherwise with `NotEligibleForLiquidation` exactly when its collateral
/// percentage is at least its ratio; otherwise with `Overflow` exactly when
/// the amount exceeds the debt or the collateral to be seized exceeds the
/// collateral held. On success the debt has shrunk by the whole amount and the
/// collateral by the amount less its tenth. The penalty is credited to nobody.
pub fn partial_liquidate(user_account: &mut UserAccount, liquidation_amount: u64) -> (res: Result<
    (),
    ErrorCode,
>)
    ensures
        old(user_account).liquidate_result(liquidation_amount) matches Ok(after)
            ==> res is Ok && *final(user_account) == after,
        old(user_account).liquidate_result(liquidation_amount) matches Err(e)
            ==> res == Err::<(), ErrorCode>(e)
                && *final(user_account) == *old(user_account),
        res is Ok
            ==> old(user_account).stablecoin_balance > 0
                && old(user_account).collateral_balance * 100
                    / (old(user_account).stablecoin_balance as int)
                    < old(user_account).collateral_ratio,
        res is Ok
            ==> final(user_account).stablecoin_balance
                == old(user_account).stablecoin_balance - liquidation_amount
                && final(user_account).collateral_balance
                    == old(user_account).collateral_balance
                        - (liquidation_amount - liquidation_amount / 10),
{
    if user_account.stablecoin_balance == 0 {
        return Err(ErrorCode::DivisionByZero);
    }
    let current_ratio: u128 = mul_div(
        user_account.collateral_balance,
        100,
        user_account.stablecoin_balance,
    );
    if current_ratio >= user_account.collateral_ratio as u128 {
        return Err(ErrorCode::NotEligibleForLiquidation);
    }
    let penalty: u64 = liquidation_amount / LIQUIDATION_PENALTY_DIVISOR;
    let remaining_collateral: u64 = match safe_sub(liquidation_amount, penalty) {
        Ok(difference) => difference,
        Err(e) => {
            return Err(e);
        },
    };
    let stablecoin_balance: u64 = match safe_sub(
        user_account.stablecoin_balance,
        liquidation_amount,
    ) {
        Ok(difference) => difference,
        Err(e) => {
            return Err(e);
        },
    };
    let collateral_balance: u64 = match safe_sub(
        user_account.collateral_balance,
        remaining_collateral,
    ) {
        Ok(difference) => difference,
        Err(e) => {
            return Err(e);
        },
    };
    user_account.stablecoin_balance = stablecoin_balance;
    user_account.collateral_balance = collateral_balance;
    Ok(())
}

} // verus!
