//! Staking: deposits, time-locked withdrawals and reward accrual.

use crate::arith::{mul_div, safe_add, safe_mul, safe_sub};
use crate::error::ErrorCode;
use crate::transfer::TokenTransfer;
use vstd::prelude::*;

verus! {

/// Reward units that one second of staking earns.
pub const REWARD_RATE: u64 = 100;

/// One staker's balance and the terms it is held under. Times are seconds
/// since the Unix epoch.
#[derive(Clone, Copy, Debug, PartialEq, Eq, Structural)]
pub struct StakerAccount {
    /// Units staked, rewards included.
    pub staked_balance: u64,
    /// The time from which a withdrawal is free of penalty.
    pub lockup_period: u64,
    /// The percentage of an early withdrawal that is kept back, 0 to 100.
    pub early_withdrawal_penalty: u64,
    /// The time up to which rewards have been accrued.
    pub last_stake_time: u64,
}

impl StakerAccount {
    /// The account after staking `amount` at time `now`, or the reason for
    /// refusing.
    pub open spec fn stake_result(self, amount: u64, now: u64) -> Result<StakerAccount, ErrorCode> {
        if self.staked_balance + amount > u64::MAX {
            Err(ErrorCode::Overflow)
        } else {
            Ok(
                StakerAccount {
                    staked_balance: (self.staked_balance + amount) as u64,
                    last_stake_time: now,
                    ..self
                },
            )
        }
    }

    /// What is kept back of a withdrawal of `amount` at time `now`: the
    /// account's percentage of it, rounded down, before the lock-up has ended,
    /// and nothing from then on.
    pub open spec fn withdrawal_penalty(self, amount: u64, now: u64) -> int {
        if now < self.lockup_period {
            amount * self.early_withdrawal_penalty / 100
        } else {
            0
        }
    }

    /// What a withdrawal of `amount` at time `now` pays out.
    pub open spec fn payout(self, amount: u64, now: u64) -> int {
        amount - self.withdrawal_penalty(amount, now)
    }

    /// The account after withdrawing `amount` at time `now`, or the reason for
    /// refusing.
    pub open spec fn withdraw_result(self, amount: u64, now: u64) -> Result<
        StakerAccount,
        ErrorCode,
    > {
        if amount > self.staked_balance {
            Err(ErrorCode::InsufficientStake)
        } else if self.withdrawal_penalty(amount, now) > amount {
            Err(ErrorCode::Overflow)
        } else {
            Ok(StakerAccount { staked_balance: (self.staked_balance - amount) as u64, ..self })
        }
    }

    /// The rewards that have accrued by time `now` and are not yet
    /// distributed. A time before the last accrual earns nothing.
    pub open spec fn accrued_rewards(self, now: u64) -> int {
        if now < self.last_stake_time {
            0
        } else {
            (now - self.last_stake_time) * REWARD_RATE
        }
    }

    /// The account after distributing rewards at time `now`, or the reason
    /// for refusing. A time before the last accrual changes nothing.
    pub open spec fn distribute_result(self, now: u64) -> Result<StakerAccount, ErrorCode> {
        if now < self.last_stake_time {
            Ok(self)
        } else if self.staked_balance + self.accrued_rewards(now) > u64::MAX {
            Err(ErrorCode::Overflow)
        } else {
            Ok(
                StakerAccount {
                    staked_balance: (self.staked_balance + self.accrued_rewards(now)) as u64,
                    last_stake_time: now,
                    ..self
                },
            )
        }
    }
}

/// Stakes `amount` at time `now`.
///
/// Refused with `Overflow` exactly when the new balance would not fit. On
/// success the balance has grown by `amount` and the accrual time is `now`.
pub fn stake_tokens(staker_account: &mut StakerAccount, amount: u64, now: u64) -> (res: Result<
    (),
    ErrorCode,
>)
    ensures
        old(staker_account).stake_result(amount, now) matches Ok(after)
            ==> res is Ok && *final(staker_account) == after,
        old(staker_account).stake_result(amount, now) matches Err(e)
            ==> res == Err::<(), ErrorCode>(e)
                && *final(staker_account) == *old(staker_account),
{
    let balance: u64 = match safe_add(staker_account.staked_balance, amount) {
        Ok(sum) => sum,
        Err(e) => {
            return Err(e);
        },
    };
    staker_account.staked_balance = balance;
    staker_account.last_stake_time = now;
    Ok(())
}

/// Withdraws `amount` of the stake at time `now`.
///
/// Refused with `InsufficientStake` exactly when `amount` exceeds the staked
/// balance, and otherwise with `Overflow` exactly when the penalty exceeds the
/// amount, which takes a penalty percentage above 100. On success the balance
/// has shrunk by the whole `amount`, and the caller has to have the payout
/// released to the user: `amount` less the penalty before the lock-up has
/// ended, the whole `amount` from then on.
pub fn withdraw_stake(staker_account: &mut StakerAccount, amount: u64, now: u64) -> (res: Result<
    TokenTransfer,
    ErrorCode,
>)
    ensures
        old(staker_account).withdraw_result(amount, now) matches Ok(after)
            ==> res == Ok::<TokenTransfer, ErrorCode>(
                (TokenTransfer::Payout { amount: old(staker_account).payout(amount, now) as u64 }),
            ) && *final(staker_account) == after,
        old(staker_account).withdraw_result(amount, now) matches Err(e)
            ==> res == Err::<TokenTransfer, ErrorCode>(e)
                && *final(staker_account) == *old(staker_account),
        res is Ok && now < old(staker_account).lockup_period
            ==> res->Ok_0 == (TokenTransfer::Payout {
                amount: (amount - amount * old(staker_account).early_withdrawal_penalty / 100) as u64,
            }),
        res is Ok && now >= old(staker_account).lockup_period
            ==> res->Ok_0 == (TokenTransfer::Payout { amount }),
{
    if staker_account.staked_balance < amount {
        return Err(ErrorCode::InsufficientStake);
    }
    let penalty: u128 = if now < staker_account.lockup_period {
        mul_div(amount, staker_account.early_withdrawal_penalty, 100)
    } else {
        0
    };
    if penalty > amount as u128 {
        return Err(ErrorCode::Overflow);
    }
    let final_amount: u64 = match safe_sub(amount, penalty as u64) {
        Ok(difference) => difference,
        Err(e) => {
            return Err(e);
        },
    };
    let balance: u64 = match safe_sub(staker_account.staked_balance, amount) {
        Ok(difference) => difference,
        Err(e) => {
            return Err(e);
        },
    };
    staker_account.staked_balance = balance;
    Ok(TokenTransfer::Payout { amount: final_amount })
}

/// Adds the rewards accrued by time `now` to the stake and moves the accrual
/// time up to `now`, so that no interval is paid twice.
///
/// A `now` before the last accrual changes nothing and succeeds. Otherwise
/// refused with `Overflow` exactly when the balance with the rewards would not
/// fit.
pub fn distribute_rewards(staker_account: &mut StakerAccount, now: u64) -> (res: Result<
    (),
    ErrorCode,
>)
    ensures
        old(staker_account).distribute_result(now) matches Ok(after)
            ==> res is Ok && *final(staker_account) == after,
        old(staker_account).distribute_result(now) matches Err(e)
            ==> res == Err::<(), ErrorCode>(e)
                && *final(staker_account) == *old(staker_account),
{
    if now < staker_account.last_stake_time {
        return Ok(());
    }
    let staking_duration: u64 = now - staker_account.last_stake_time;
    let rewards: u64 = match safe_mul(staking_duration, REWARD_RATE) {
        Ok(product) => product,
        Err(e) => {
            return Err(e);
        },
    };
    let balance: u64 = match safe_add(staker_account.staked_balance, rewards) {
        Ok(sum) => sum,
        Err(e) => {
            return Err(e);
        },
    };
    staker_account.staked_balance = balance;
    staker_account.last_stake_time = now;
    Ok(())
}

/// Rewards accrue once. Distributing at `first` and again at `second` leaves
/// the account exactly where one distribution at `second` leaves it. Where the
/// first call was not made before the account's last accrual, the second call
/// pays for the time since the first call only.
pub proof fn lemma_rewards_accrue_once(account: StakerAccount, first: u64, second: u64)
    requires
        first <= second,
        account.distribute_result(second) is Ok,
    ensures
        account.distribute_result(first) matches Ok(between)
            && between.distribute_result(second) == account.distribute_result(second)
            && (account.last_stake_time <= first
                ==> between.accrued_rewards(second) == (second - first) * REWARD_RATE),
        account.last_stake_time <= second
            ==> account.distribute_result(second)->Ok_0.staked_balance
                == account.staked_balance + (second - account.last_stake_time) * REWARD_RATE,
{
}

/// With a penalty percentage of at most 100 a withdrawal within the staked
/// balance is never refused, and it pays out no more than was withdrawn.
pub proof fn lemma_valid_penalty_never_refused(account: StakerAccount, amount: u64, now: u64)
    requires
        account.early_withdrawal_penalty <= 100,
        amount <= account.staked_balance,
    ensures
        account.withdraw_result(amount, now) is Ok,
        0 <= account.payout(amount, now) <= amount,
{
    let percent = account.early_withdrawal_penalty;
    assert(0 <= amount * percent <= amount * 100) by (nonlinear_arith)
        requires
            0 <= percent <= 100,
            0 <= amount,
    ;
}

} // verus!
