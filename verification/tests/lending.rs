use yield_protocol::account::AccountId;
use yield_protocol::lending::{
    calculate_pending_yield, create_strategy, deposit, get_user_balance, initialize_user_deposit,
    redeem, reset_user_yield, toggle_strategy_status, withdraw, ErrorCode, Strategy, UserDeposit,
    MIN_DEPOSIT,
};
use yield_protocol::yield_math::YEAR_SECONDS;

fn id(n: u64) -> AccountId {
    AccountId { w0: n, w1: 0, w2: 0, w3: 0 }
}

fn active_strategy(apy: u64) -> Strategy {
    create_strategy(7, id(3), id(4), id(5), apy, 100).unwrap()
}

fn record(user: u64, strategy: u64, amount: u64, yield_earned: u64, t: i64) -> UserDeposit {
    UserDeposit {
        user: id(user),
        strategy: id(strategy),
        amount,
        yield_earned,
        deposit_time: t,
        last_yield_calculation: t,
    }
}

#[test]
fn create_strategy_accepts_rates_within_bounds() {
    let s = create_strategy(7, id(3), id(4), id(5), 100, 42).unwrap();
    assert_eq!(s.strategy_id, 7);
    assert_eq!(s.admin, id(3));
    assert_eq!(s.token_address, id(4));
    assert_eq!(s.token_yield_address, id(5));
    assert_eq!(s.reward_apy, 100);
    assert_eq!(s.created_at, 42);
    assert!(s.active);
    assert_eq!(s.total_deposited, 0);
    assert!(create_strategy(8, id(3), id(4), id(5), 100_000, 42).is_ok());
}

#[test]
fn create_strategy_rejects_rates_out_of_bounds() {
    assert_eq!(
        create_strategy(7, id(3), id(4), id(5), 99, 42),
        Err(ErrorCode::InvalidAPY)
    );
    assert_eq!(
        create_strategy(7, id(3), id(4), id(5), 100_001, 42),
        Err(ErrorCode::InvalidAPY)
    );
}

#[test]
fn initialize_user_deposit_writes_a_fresh_record() {
    let s = active_strategy(10_000);
    let d = initialize_user_deposit(id(1), id(2), &s, 900).unwrap();
    assert_eq!(d, record(1, 2, 0, 0, 900));
}

#[test]
fn initialize_user_deposit_requires_an_active_strategy() {
    let mut s = active_strategy(10_000);
    s.active = false;
    assert_eq!(
        initialize_user_deposit(id(1), id(2), &s, 900),
        Err(ErrorCode::InvalidStrategy)
    );
}

#[test]
fn deposit_below_minimum_is_rejected() {
    let mut s = active_strategy(10_000);
    let mut d = record(1, 2, 0, 0, 100);
    let r = deposit(id(1), id(2), &mut s, &mut d, MIN_DEPOSIT - 1, 100);
    assert_eq!(r, Err(ErrorCode::InsufficientDepositAmount));
    assert_eq!(d, record(1, 2, 0, 0, 100));
    assert_eq!(s.total_deposited, 0);
}

#[test]
fn deposit_into_inactive_strategy_is_rejected() {
    let mut s = active_strategy(10_000);
    s.active = false;
    let mut d = record(1, 2, 0, 0, 100);
    let r = deposit(id(1), id(2), &mut s, &mut d, MIN_DEPOSIT, 100);
    assert_eq!(r, Err(ErrorCode::InvalidStrategy));
    assert_eq!(d, record(1, 2, 0, 0, 100));
}

#[test]
fn deposit_against_another_strategy_is_rejected() {
    let mut s = active_strategy(10_000);
    let mut d = record(1, 9, 5_000_000, 0, 100);
    let r = deposit(id(1), id(2), &mut s, &mut d, MIN_DEPOSIT, 200);
    assert_eq!(r, Err(ErrorCode::InvalidStrategy));
    assert_eq!(d, record(1, 9, 5_000_000, 0, 100));
}

#[test]
fn first_deposit_creates_the_record_in_place() {
    let mut s = active_strategy(10_000);
    let mut d = record(0, 0, 0, 0, 0);
    let e = deposit(id(1), id(2), &mut s, &mut d, 1_000_000, 500).unwrap();
    assert_eq!(e.vault_deposit, 1_000_000);
    assert_eq!(e.yt_minted, 1_000_000);
    assert_eq!(d, record(1, 2, 1_000_000, 0, 500));
    assert_eq!(s.total_deposited, 1_000_000);
}

#[test]
fn deposit_settles_a_full_year_of_yield() {
    let mut s = active_strategy(10_000);
    let mut d = record(1, 2, 1_000_000, 0, 500);
    let now = 500 + YEAR_SECONDS as i64;
    let e = deposit(id(1), id(2), &mut s, &mut d, 1_000_000, now).unwrap();
    assert_eq!(e.vault_deposit, 1_000_000);
    // a rate of 10_000 pays the whole balance over one year
    assert_eq!(d.amount, 2_000_000);
    assert_eq!(d.yield_earned, 1_000_000);
    assert_eq!(d.deposit_time, now);
    assert_eq!(d.last_yield_calculation, now);
    assert_eq!(s.total_deposited, 1_000_000);
}

#[test]
fn deposit_overflowing_the_yield_arithmetic_is_rejected() {
    let mut s = active_strategy(100_000);
    let mut d = record(1, 2, u64::MAX, 0, 0);
    let r = deposit(id(1), id(2), &mut s, &mut d, MIN_DEPOSIT, 1);
    assert_eq!(r, Err(ErrorCode::CalculationError));
    assert_eq!(d, record(1, 2, u64::MAX, 0, 0));
    assert_eq!(s.total_deposited, 0);
}

#[test]
fn withdraw_of_zero_is_rejected() {
    let s = active_strategy(10_000);
    let mut d = record(1, 2, 1_000_000, 0, 0);
    assert_eq!(withdraw(&s, &mut d, 0, 10), Err(ErrorCode::InvalidAmount));
    assert_eq!(d, record(1, 2, 1_000_000, 0, 0));
}

#[test]
fn withdraw_from_inactive_strategy_is_rejected() {
    let mut s = active_strategy(10_000);
    s.active = false;
    let mut d = record(1, 2, 1_000_000, 0, 0);
    assert_eq!(withdraw(&s, &mut d, 1, 10), Err(ErrorCode::InvalidStrategy));
}

#[test]
fn withdraw_beyond_the_balance_is_rejected() {
    let s = active_strategy(10_000);
    let mut d = record(1, 2, 1_000_000, 0, 0);
    assert_eq!(
        withdraw(&s, &mut d, 1_000_001, 10),
        Err(ErrorCode::InsufficientFunds)
    );
    assert_eq!(d, record(1, 2, 1_000_000, 0, 0));
}

#[test]
fn withdraw_settles_yield_and_lowers_the_balance() {
    let s = active_strategy(5_000);
    let mut d = record(1, 2, 2_000_000, 0, 1_000);
    let now = 1_000 + YEAR_SECONDS as i64;
    let e = withdraw(&s, &mut d, 500_000, now).unwrap();
    assert_eq!(e.vault_withdrawal, 500_000);
    assert_eq!(e.yt_burned, 500_000);
    // half the yearly rate on 2_000_000 over one year
    assert_eq!(d.amount, 1_500_000);
    assert_eq!(d.yield_earned, 1_000_000);
    assert_eq!(d.deposit_time, 1_000);
    assert_eq!(d.last_yield_calculation, now);
}

#[test]
fn get_user_balance_reports_the_principal() {
    let d = record(1, 2, 123_456, 789, 0);
    assert_eq!(get_user_balance(&d), Ok(123_456));
}

#[test]
fn pending_yield_is_unchanged_while_the_clock_stands() {
    let s = active_strategy(10_000);
    let d = record(1, 2, 1_000_000, 777, 500);
    assert_eq!(calculate_pending_yield(&d, &s, 500), Ok(777));
}

#[test]
fn pending_yield_is_unchanged_on_an_empty_balance() {
    let s = active_strategy(10_000);
    let d = record(1, 2, 0, 777, 500);
    assert_eq!(calculate_pending_yield(&d, &s, 500 + YEAR_SECONDS as i64), Ok(777));
}

#[test]
fn pending_yield_over_one_day_rounds_down() {
    let s = active_strategy(100);
    let d = record(1, 2, 1_000_000, 0, 0);
    // 1_000_000 * 100 * 86_400 / (31_536_000 * 10_000) = 27.39..., rounded down
    assert_eq!(calculate_pending_yield(&d, &s, 86_400), Ok(27));
}

#[test]
fn pending_yield_adds_a_full_year_to_the_settled_total() {
    let s = active_strategy(10_000);
    let d = record(1, 2, 3_000_000, 500, 0);
    assert_eq!(
        calculate_pending_yield(&d, &s, YEAR_SECONDS as i64),
        Ok(3_000_500)
    );
}

#[test]
fn pending_yield_overflow_is_reported() {
    let s = active_strategy(100_000);
    let d = record(1, 2, u64::MAX, 0, 0);
    assert_eq!(
        calculate_pending_yield(&d, &s, 1),
        Err(ErrorCode::CalculationError)
    );
}

#[test]
fn redeem_from_inactive_strategy_is_rejected() {
    let mut s = active_strategy(10_000);
    s.active = false;
    let mut d = record(1, 2, 1_000_000, 0, 0);
    assert_eq!(
        redeem(&s, id(2), &mut d, 1_000_000, 1_000_000, 100),
        Err(ErrorCode::InvalidStrategy)
    );
}

#[test]
fn redeem_of_zero_is_rejected() {
    let s = active_strategy(10_000);
    let mut d = record(1, 2, 1_000_000, 0, 0);
    assert_eq!(
        redeem(&s, id(2), &mut d, 1_000_000, 0, 100),
        Err(ErrorCode::InvalidAmount)
    );
}

#[test]
fn redeem_against_another_strategy_is_rejected() {
    let s = active_strategy(10_000);
    let mut d = record(1, 9, 1_000_000, 0, 0);
    assert_eq!(
        redeem(&s, id(2), &mut d, 1_000_000, 1_000, 100),
        Err(ErrorCode::InvalidStrategy)
    );
}

#[test]
fn redeem_beyond_the_token_balance_is_rejected() {
    let s = active_strategy(10_000);
    let mut d = record(1, 2, 1_000_000, 0, 0);
    assert_eq!(
        redeem(&s, id(2), &mut d, 999, 1_000, 100),
        Err(ErrorCode::InsufficientYieldTokens)
    );
}

#[test]
fn redeem_before_the_hold_has_passed_is_rejected() {
    let s = active_strategy(10_000);
    let mut d = record(1, 2, 1_000_000, 0, 0);
    assert_eq!(
        redeem(&s, id(2), &mut d, 1_000_000, 1_000, 59),
        Err(ErrorCode::TooEarlyToRedeem)
    );
    assert_eq!(d, record(1, 2, 1_000_000, 0, 0));
}

#[test]
fn redeem_of_the_whole_deposit_pays_all_settled_yield() {
    let s = active_strategy(10_000);
    let mut d = UserDeposit {
        user: id(1),
        strategy: id(2),
        amount: 1_000_000,
        yield_earned: 500,
        deposit_time: 0,
        last_yield_calculation: 60,
    };
    let e = redeem(&s, id(2), &mut d, 1_000_000, 1_000_000, 60).unwrap();
    assert_eq!(e.yt_burned, 1_000_000);
    assert_eq!(e.vault_payout, 1_000_500);
    assert_eq!(d.amount, 0);
    assert_eq!(d.yield_earned, 0);
    assert_eq!(d.last_yield_calculation, 60);
    assert_eq!(d.deposit_time, 0);
}

#[test]
fn redeem_of_half_the_deposit_pays_half_the_yield() {
    let s = active_strategy(10_000);
    let mut d = UserDeposit {
        user: id(1),
        strategy: id(2),
        amount: 2_000_000,
        yield_earned: 1_000,
        deposit_time: 0,
        last_yield_calculation: 60,
    };
    let e = redeem(&s, id(2), &mut d, 2_000_000, 1_000_000, 60).unwrap();
    assert_eq!(e.yt_burned, 1_000_000);
    assert_eq!(e.vault_payout, 1_000_500);
    assert_eq!(d.amount, 1_000_000);
    assert_eq!(d.yield_earned, 500);
}

#[test]
fn redeem_beyond_the_deposit_fails_the_arithmetic() {
    let s = active_strategy(10_000);
    let mut d = UserDeposit {
        user: id(1),
        strategy: id(2),
        amount: 1_000_000,
        yield_earned: 0,
        deposit_time: 0,
        last_yield_calculation: 60,
    };
    assert_eq!(
        redeem(&s, id(2), &mut d, 2_000_000, 2_000_000, 60),
        Err(ErrorCode::CalculationError)
    );
    assert_eq!(d.amount, 1_000_000);
}

#[test]
fn toggle_by_a_stranger_is_rejected() {
    let mut s = active_strategy(10_000);
    assert_eq!(
        toggle_strategy_status(&mut s, id(9), 7),
        Err(ErrorCode::Unauthorized)
    );
    assert!(s.active);
}

#[test]
fn toggle_flips_and_flips_back() {
    let mut s = active_strategy(10_000);
    assert_eq!(toggle_strategy_status(&mut s, id(3), 7), Ok(()));
    assert!(!s.active);
    assert_eq!(toggle_strategy_status(&mut s, id(3), 7), Ok(()));
    assert!(s.active);
}

#[test]
fn a_deposit_withdrawn_in_full_leaves_only_the_yield() {
    let mut s = active_strategy(10_000);
    let mut d = record(0, 0, 0, 0, 0);
    assert!(deposit(id(1), id(2), &mut s, &mut d, 1_000_000, 100).is_ok());
    let now = 100 + YEAR_SECONDS as i64;
    let e = withdraw(&s, &mut d, 1_000_000, now).unwrap();
    assert_eq!(e.vault_withdrawal, 1_000_000);
    assert_eq!(d.amount, 0);
    assert_eq!(d.yield_earned, 1_000_000);
    assert_eq!(
        withdraw(&s, &mut d, 1, now),
        Err(ErrorCode::InsufficientFunds)
    );
}

#[test]
fn reset_user_yield_clears_the_settled_total() {
    let mut d = record(1, 2, 1_000_000, 999, 100);
    assert_eq!(reset_user_yield(&mut d, 2_000), Ok(()));
    assert_eq!(d.yield_earned, 0);
    assert_eq!(d.last_yield_calculation, 2_000);
    assert_eq!(d.amount, 1_000_000);
    assert_eq!(d.deposit_time, 100);
}
