use stablecoin_core::{
    distribute_rewards, stake_tokens, withdraw_stake, ErrorCode, StakerAccount, TokenTransfer,
    REWARD_RATE,
};

fn staker(
    staked_balance: u64,
    lockup_period: u64,
    early_withdrawal_penalty: u64,
    last_stake_time: u64,
) -> StakerAccount {
    StakerAccount { staked_balance, lockup_period, early_withdrawal_penalty, last_stake_time }
}

#[test]
fn reward_rate_is_one_hundred_per_second() {
    assert_eq!(REWARD_RATE, 100);
}

#[test]
fn stake_adds_the_amount_and_stamps_the_time() {
    let mut account = staker(1000, 500, 10, 100);
    assert_eq!(stake_tokens(&mut account, 250, 321), Ok(()));
    assert_eq!(account, staker(1250, 500, 10, 321));
    assert_eq!(stake_tokens(&mut account, 0, 20), Ok(()));
    assert_eq!(account, staker(1250, 500, 10, 20));
}

#[test]
fn stake_refused_when_the_balance_would_overflow() {
    let mut account = staker(u64::MAX - 1, 500, 10, 100);
    assert_eq!(stake_tokens(&mut account, 2, 321), Err(ErrorCode::Overflow));
    assert_eq!(account, staker(u64::MAX - 1, 500, 10, 100));
    assert_eq!(stake_tokens(&mut account, 1, 321), Ok(()));
    assert_eq!(account, staker(u64::MAX, 500, 10, 321));
}

#[test]
fn early_withdrawal_pays_the_amount_less_the_penalty() {
    let mut account = staker(1000, 500, 10, 100);
    assert_eq!(withdraw_stake(&mut account, 250, 499), Ok(TokenTransfer::Payout { amount: 225 }));
    assert_eq!(account, staker(750, 500, 10, 100));
}

#[test]
fn early_withdrawal_penalty_rounds_down() {
    let mut account = staker(1000, 500, 10, 100);
    assert_eq!(withdraw_stake(&mut account, 9, 0), Ok(TokenTransfer::Payout { amount: 9 }));
    assert_eq!(withdraw_stake(&mut account, 19, 0), Ok(TokenTransfer::Payout { amount: 18 }));
    assert_eq!(account.staked_balance, 972);
}

#[test]
fn withdrawal_from_the_end_of_the_lockup_pays_in_full() {
    let mut account = staker(1000, 500, 10, 100);
    assert_eq!(withdraw_stake(&mut account, 250, 500), Ok(TokenTransfer::Payout { amount: 250 }));
    assert_eq!(withdraw_stake(&mut account, 250, 9000), Ok(TokenTransfer::Payout { amount: 250 }));
    assert_eq!(account, staker(500, 500, 10, 100));
}

#[test]
fn withdrawal_with_the_extreme_percentages() {
    let mut none = staker(1000, 500, 0, 100);
    assert_eq!(withdraw_stake(&mut none, 1000, 1), Ok(TokenTransfer::Payout { amount: 1000 }));
    assert_eq!(none.staked_balance, 0);
    let mut all = staker(1000, 500, 100, 100);
    assert_eq!(withdraw_stake(&mut all, 1000, 1), Ok(TokenTransfer::Payout { amount: 0 }));
    assert_eq!(all.staked_balance, 0);
}

#[test]
fn withdrawal_beyond_the_stake_is_refused() {
    let mut account = staker(1000, 500, 10, 100);
    assert_eq!(withdraw_stake(&mut account, 1001, 499), Err(ErrorCode::InsufficientStake));
    assert_eq!(withdraw_stake(&mut account, 1001, 500), Err(ErrorCode::InsufficientStake));
    assert_eq!(account, staker(1000, 500, 10, 100));
}

#[test]
fn withdrawal_with_a_penalty_above_the_amount_overflows() {
    let mut account = staker(1000, 500, 101, 100);
    assert_eq!(withdraw_stake(&mut account, 100, 499), Err(ErrorCode::Overflow));
    assert_eq!(account, staker(1000, 500, 101, 100));
    // 99 * 101 / 100 = 99: the penalty takes all of it, and no more.
    assert_eq!(withdraw_stake(&mut account, 99, 499), Ok(TokenTransfer::Payout { amount: 0 }));
    // After the lock-up the percentage plays no part.
    assert_eq!(withdraw_stake(&mut account, 100, 500), Ok(TokenTransfer::Payout { amount: 100 }));
    let mut huge = staker(u64::MAX, 500, u64::MAX, 100);
    assert_eq!(withdraw_stake(&mut huge, u64::MAX, 0), Err(ErrorCode::Overflow));
}

#[test]
fn withdrawal_penalty_is_exact_for_large_amounts() {
    let mut account = staker(u64::MAX, 500, 50, 100);
    assert_eq!(
        withdraw_stake(&mut account, u64::MAX, 0),
        Ok(TokenTransfer::Payout { amount: u64::MAX - u64::MAX / 2 })
    );
    assert_eq!(account.staked_balance, 0);
}

#[test]
fn rewards_are_the_rate_times_the_seconds_since_the_last_accrual() {
    let mut account = staker(1000, 500, 10, 100);
    assert_eq!(distribute_rewards(&mut account, 110), Ok(()));
    assert_eq!(account, staker(2000, 500, 10, 110));
}

#[test]
fn rewards_for_no_time_are_nothing() {
    let mut account = staker(1000, 500, 10, 100);
    assert_eq!(distribute_rewards(&mut account, 100), Ok(()));
    assert_eq!(account, staker(1000, 500, 10, 100));
}

#[test]
fn rewards_accrue_once_over_two_distributions() {
    let mut twice = staker(1000, 500, 10, 100);
    assert_eq!(distribute_rewards(&mut twice, 130), Ok(()));
    assert_eq!(twice.staked_balance, 1000 + 30 * 100);
    assert_eq!(distribute_rewards(&mut twice, 150), Ok(()));
    assert_eq!(twice.staked_balance, 1000 + 30 * 100 + 20 * 100);
    let mut once = staker(1000, 500, 10, 100);
    assert_eq!(distribute_rewards(&mut once, 150), Ok(()));
    assert_eq!(twice, once);
    assert_eq!(distribute_rewards(&mut twice, 150), Ok(()));
    assert_eq!(twice, once);
}

#[test]
fn staking_restarts_the_accrual() {
    let mut account = staker(1000, 500, 10, 100);
    assert_eq!(stake_tokens(&mut account, 500, 140), Ok(()));
    assert_eq!(distribute_rewards(&mut account, 150), Ok(()));
    assert_eq!(account, staker(1500 + 10 * 100, 500, 10, 150));
}

#[test]
fn rewards_before_the_last_accrual_change_nothing() {
    let mut account = staker(1000, 500, 10, 100);
    assert_eq!(distribute_rewards(&mut account, 99), Ok(()));
    assert_eq!(account, staker(1000, 500, 10, 100));
    assert_eq!(distribute_rewards(&mut account, 0), Ok(()));
    assert_eq!(account, staker(1000, 500, 10, 100));
}

#[test]
fn rewards_that_do_not_fit_are_refused() {
    let mut long = staker(0, 500, 10, 0);
    assert_eq!(distribute_rewards(&mut long, u64::MAX), Err(ErrorCode::Overflow));
    assert_eq!(long, staker(0, 500, 10, 0));
    let mut full = staker(u64::MAX - 999, 500, 10, 100);
    assert_eq!(distribute_rewards(&mut full, 110), Err(ErrorCode::Overflow));
    assert_eq!(full, staker(u64::MAX - 999, 500, 10, 100));
    let mut fits = staker(u64::MAX - 1000, 500, 10, 100);
    assert_eq!(distribute_rewards(&mut fits, 110), Ok(()));
    assert_eq!(fits, staker(u64::MAX, 500, 10, 110));
}
