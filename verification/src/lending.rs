use vstd::prelude::*;

verus! {

use crate::account::AccountId;
use crate::yield_math::{
    checked_yield_increment, fits_i64, lemma_ratio_part_le_base, lemma_scaled_fraction_le_scale,
    yield_increment, RATE_SCALE,
};

/// Smallest deposit accepted, in base-token units.
pub const MIN_DEPOSIT: u64 = 1_000_000;

/// Lower bound on a strategy's reward rate, in `RATE_SCALE` units per year.
pub const MIN_REWARD_APY: u64 = 100;

/// Upper bound on a strategy's reward rate, in `RATE_SCALE` units per year.
pub const MAX_REWARD_APY: u64 = 100_000;

/// Seconds a deposit must rest before any of it can be redeemed.
pub const MIN_HOLD_SECONDS: i64 = 60;

/// Reasons an instruction refuses to act. An instruction that errs leaves
/// every account exactly as it found it.
#[derive(Clone, Copy, PartialEq, Eq, Structural, Debug)]
pub enum ErrorCode {
    /// Checked arithmetic left the 64-bit range.
    CalculationError,
    /// The deposit does not cover the requested amount.
    InsufficientFunds,
    /// The reward rate lies outside the accepted bounds.
    InvalidAPY,
    /// The requested amount is zero.
    InvalidAmount,
    /// The signer is not the strategy's admin.
    Unauthorized,
    /// The deposit is below the accepted minimum.
    InsufficientDepositAmount,
    /// The pool is not accepting operations.
    PoolInactive,
    /// The strategy is inactive or is not the one the deposit belongs to.
    InvalidStrategy,
    /// The vault does not belong to the strategy.
    InvalidVault,
    /// The user holds fewer yield tokens than the redemption asks for.
    InsufficientYieldTokens,
    /// The deposit has not rested for `MIN_HOLD_SECONDS` yet.
    TooEarlyToRedeem,
    /// The pool account has already been written.
    PoolAlreadyInitialized,
    /// The deposit record has already been written.
    UserDepositAlreadyInitialized,
    /// The yield-token mint does not belong to the strategy.
    InvalidYieldToken,
}

/// A yield strategy: one base token, one yield-token mint, one reward rate.
#[derive(Clone, Copy, PartialEq, Eq, Structural, Debug)]
pub struct Strategy {
    pub strategy_id: u64,
    pub admin: AccountId,
    pub token_address: AccountId,
    pub token_yield_address: AccountId,
    /// Reward rate in `RATE_SCALE` units per year.
    pub reward_apy: u64,
    pub created_at: i64,
    pub active: bool,
    /// Sum of all deposits ever made into the strategy's vault.
    pub total_deposited: u64,
}

impl Strategy {
    /// What `create_strategy` guarantees of every strategy it writes: the
    /// reward rate lies within the accepted bounds.
    pub open spec fn wf(self) -> bool {
        MIN_REWARD_APY <= self.reward_apy <= MAX_REWARD_APY
    }
}

/// One user's stake in one strategy.
#[derive(Clone, Copy, PartialEq, Eq, Structural, Debug)]
pub struct UserDeposit {
    pub user: AccountId,
    /// Address of the strategy account the stake belongs to.
    pub strategy: AccountId,
    /// Principal currently deposited.
    pub amount: u64,
    /// Yield settled up to `last_yield_calculation` and not yet paid out.
    pub yield_earned: u64,
    /// Time of the most recent deposit.
    pub deposit_time: i64,
    /// Time up to which `yield_earned` accounts for the accrued yield.
    pub last_yield_calculation: i64,
}

impl UserDeposit {
    /// The record a first deposit writes: nothing deposited, nothing earned,
    /// both clock fields at `now`.
    pub open spec fn fresh(user: AccountId, strategy: AccountId, now: i64) -> UserDeposit {
        UserDeposit {
            user,
            strategy,
            amount: 0,
            yield_earned: 0,
            deposit_time: now,
            last_yield_calculation: now,
        }
    }
}

/// A record whose owner is still unset is created on the spot, as `deposit`
/// does for a first-time user; any other record is taken as it stands.
pub open spec fn initialized(
    ud: UserDeposit,
    user: AccountId,
    strategy_key: AccountId,
    now: i64,
) -> UserDeposit {
    if ud.user == AccountId::unset() {
        UserDeposit::fresh(user, strategy_key, now)
    } else {
        ud
    }
}

/// Yield owed up to `now`: the settled total plus time-proportional interest
/// on the current balance since the last settlement. Nothing accrues while
/// the balance is zero or the clock has not advanced.
pub open spec fn settled_yield(ud: UserDeposit, apy: u64, now: i64) -> int {
    let elapsed = now - ud.last_yield_calculation;
    if elapsed > 0 && ud.amount > 0 {
        ud.yield_earned + yield_increment(ud.amount, apy, elapsed)
    } else {
        ud.yield_earned as int
    }
}

/// The checked arithmetic behind `settled_yield` stays within the 64-bit
/// range.
pub open spec fn settled_yield_fits(ud: UserDeposit, apy: u64, now: i64) -> bool {
    let elapsed = now - ud.last_yield_calculation;
    (elapsed > 0 && ud.amount > 0) ==> {
        &&& ud.amount * apy <= u64::MAX
        &&& ud.amount * apy * elapsed <= u64::MAX
        &&& ud.yield_earned + yield_increment(ud.amount, apy, elapsed) <= u64::MAX
    }
}

/// Share of the deposit a redemption of `yt_amount` claims, in `RATE_SCALE`
/// units; a redemption against an empty deposit claims the whole.
pub open spec fn redeem_ratio(ud: UserDeposit, yt_amount: u64) -> int {
    if ud.amount > 0 {
        (yt_amount * RATE_SCALE) / (ud.amount as int)
    } else {
        RATE_SCALE as int
    }
}

/// Part of the settled yield paid out by a redemption of `yt_amount`.
pub open spec fn redeem_yield_part(ud: UserDeposit, apy: u64, yt_amount: u64, now: i64) -> int {
    (settled_yield(ud, apy, now) * redeem_ratio(ud, yt_amount)) / (RATE_SCALE as int)
}

/// The checked arithmetic of `redeem` stays within the 64-bit range and the
/// redemption does not claim more principal than is deposited.
pub open spec fn redeem_math_fits(ud: UserDeposit, apy: u64, yt_amount: u64, now: i64) -> bool {
    &&& settled_yield_fits(ud, apy, now)
    &&& (ud.amount > 0 ==> yt_amount * RATE_SCALE <= u64::MAX)
    &&& settled_yield(ud, apy, now) * redeem_ratio(ud, yt_amount) <= u64::MAX
    &&& yt_amount + redeem_yield_part(ud, apy, yt_amount, now) <= u64::MAX
    &&& yt_amount <= ud.amount
}

/// Token movements that complete a deposit.
#[derive(Clone, Copy, PartialEq, Eq, Structural, Debug)]
pub struct DepositEffects {
    /// Base tokens moved from the user into the strategy's vault.
    pub vault_deposit: u64,
    /// Yield tokens minted to the user, one for one with the deposit.
    pub yt_minted: u64,
}

/// Token movements that complete a withdrawal.
#[derive(Clone, Copy, PartialEq, Eq, Structural, Debug)]
pub struct WithdrawEffects {
    /// Base tokens moved from the vault back to the user.
    pub vault_withdrawal: u64,
    /// Yield tokens burned from the user, one for one with the withdrawal.
    pub yt_burned: u64,
}

/// Token movements that complete a redemption.
#[derive(Clone, Copy, PartialEq, Eq, Structural, Debug)]
pub struct RedeemEffects {
    /// Yield tokens burned from the user.
    pub yt_burned: u64,
    /// Base tokens moved from the vault to the user: principal plus the
    /// proportional share of the settled yield.
    pub vault_payout: u64,
}

/// Settles the yield accrued up to `now` into a copy of the record, as every
/// mutating instruction does before it touches balances. `None` when the
/// checked arithmetic leaves the 64-bit range.
fn settle_yield(ud: UserDeposit, apy: u64, now: i64) -> (r: Option<UserDeposit>)
    requires
        fits_i64(now - ud.last_yield_calculation),
    ensures
        r is Some <==> settled_yield_fits(ud, apy, now),
        r matches Some(s) ==> s == (UserDeposit {
            yield_earned: settled_yield(ud, apy, now) as u64,
            ..ud
        }),
{
    let elapsed: i64 = now - ud.last_yield_calculation;
    if elapsed > 0 && ud.amount > 0 {
        match checked_yield_increment(ud.amount, apy, elapsed as u64) {
            Some(inc) => match ud.yield_earned.checked_add(inc) {
                Some(total) => Some(UserDeposit { yield_earned: total, ..ud }),
                None => None,
            },
            None => None,
        }
    } else {
        Some(ud)
    }
}

/// Writes the deposit record for a user entering a strategy. Refused while
/// the strategy is inactive.
pub fn initialize_user_deposit(
    user: AccountId,
    strategy_key: AccountId,
    strategy: &Strategy,
    now: i64,
) -> (r: Result<UserDeposit, ErrorCode>)
    ensures
        !strategy.active ==> r == Err::<UserDeposit, ErrorCode>(ErrorCode::InvalidStrategy),
        strategy.active ==> (r matches Ok(d) && d == UserDeposit::fresh(user, strategy_key, now)),
{
    if !strategy.active {
        return Err(ErrorCode::InvalidStrategy);
    }
    Ok(UserDeposit {
        user,
        strategy: strategy_key,
        amount: 0,
        yield_earned: 0,
        deposit_time: now,
        last_yield_calculation: now,
    })
}

/// Deposits `amount` base tokens into the strategy: settles the yield accrued
/// so far, raises the deposited balance and the strategy's running total, and
/// asks the host to move the tokens into the vault and mint the same number
/// of yield tokens. A record not written yet is created on the spot.
pub fn deposit(
    user: AccountId,
    strategy_key: AccountId,
    strategy: &mut Strategy,
    user_deposit: &mut UserDeposit,
    amount: u64,
    now: i64,
) -> (r: Result<DepositEffects, ErrorCode>)
    requires
        (amount >= MIN_DEPOSIT && old(strategy).active && old(user_deposit).user
            != AccountId::unset() && old(user_deposit).strategy == strategy_key) ==> fits_i64(
            now - old(user_deposit).last_yield_calculation,
        ),
    ensures
        r is Err ==> *final(user_deposit) == *old(user_deposit) && *final(strategy) == *old(
            strategy,
        ),
        amount < MIN_DEPOSIT ==> r == Err::<DepositEffects, ErrorCode>(
            ErrorCode::InsufficientDepositAmount,
        ),
        amount >= MIN_DEPOSIT && !old(strategy).active ==> r == Err::<DepositEffects, ErrorCode>(
            ErrorCode::InvalidStrategy,
        ),
        ({
            let d = initialized(*old(user_deposit), user, strategy_key, now);
            let apy = old(strategy).reward_apy;
            &&& (amount >= MIN_DEPOSIT && old(strategy).active && d.strategy != strategy_key)
                ==> r == Err::<DepositEffects, ErrorCode>(ErrorCode::InvalidStrategy)
            &&& (amount >= MIN_DEPOSIT && old(strategy).active && d.strategy == strategy_key && !(
            settled_yield_fits(d, apy, now) && d.amount + amount <= u64::MAX && old(
                strategy,
            ).total_deposited + amount <= u64::MAX)) ==> r == Err::<DepositEffects, ErrorCode>(
                ErrorCode::CalculationError,
            )
            &&& (amount >= MIN_DEPOSIT && old(strategy).active && d.strategy == strategy_key
                && settled_yield_fits(d, apy, now) && d.amount + amount <= u64::MAX && old(
                strategy,
            ).total_deposited + amount <= u64::MAX) ==> (r matches Ok(e)
                && e == (DepositEffects { vault_deposit: amount, yt_minted: amount })
                && *final(user_deposit) == (UserDeposit {
                    user: d.user,
                    strategy: d.strategy,
                    amount: (d.amount + amount) as u64,
                    yield_earned: settled_yield(d, apy, now) as u64,
                    deposit_time: now,
                    last_yield_calculation: now,
                })
                && *final(strategy) == (Strategy {
                    total_deposited: (old(strategy).total_deposited + amount) as u64,
                    ..*old(strategy)
                }))
        }),
{
    if amount < MIN_DEPOSIT {
        return Err(ErrorCode::InsufficientDepositAmount);
    }
    if !strategy.active {
        return Err(ErrorCode::InvalidStrategy);
    }
    let d0 = if user_deposit.user == AccountId::default() {
        UserDeposit {
            user,
            strategy: strategy_key,
            amount: 0,
            yield_earned: 0,
            deposit_time: now,
            last_yield_calculation: now,
        }
    } else {
        *user_deposit
    };
    if d0.strategy != strategy_key {
        return Err(ErrorCode::InvalidStrategy);
    }
    let d1 = match settle_yield(d0, strategy.reward_apy, now) {
        Some(d) => d,
        None => return Err(ErrorCode::CalculationError),
    };
    let new_amount = match d1.amount.checked_add(amount) {
        Some(v) => v,
        None => return Err(ErrorCode::CalculationError),
    };
    let new_total = match strategy.total_deposited.checked_add(amount) {
        Some(v) => v,
        None => return Err(ErrorCode::CalculationError),
    };
    *user_deposit = UserDeposit {
        amount: new_amount,
        deposit_time: now,
        last_yield_calculation: now,
        ..d1
    };
    strategy.total_deposited = new_total;
    Ok(DepositEffects { vault_deposit: amount, yt_minted: amount })
}

/// Withdraws `amount` base tokens from the strategy: settles the yield
/// accrued so far, lowers the deposited balance, and asks the host to move
/// the tokens out of the vault and burn the same number of yield tokens.
pub fn withdraw(
    strategy: &Strategy,
    user_deposit: &mut UserDeposit,
    amount: u64,
    now: i64,
) -> (r: Result<WithdrawEffects, ErrorCode>)
    requires
        (strategy.active && amount > 0 && old(user_deposit).amount >= amount) ==> fits_i64(
            now - old(user_deposit).last_yield_calculation,
        ),
    ensures
        r is Err ==> *final(user_deposit) == *old(user_deposit),
        !strategy.active ==> r == Err::<WithdrawEffects, ErrorCode>(ErrorCode::InvalidStrategy),
        strategy.active && amount == 0 ==> r == Err::<WithdrawEffects, ErrorCode>(
            ErrorCode::InvalidAmount,
        ),
        strategy.active && amount > 0 && old(user_deposit).amount < amount ==> r == Err::<
            WithdrawEffects,
            ErrorCode,
        >(ErrorCode::InsufficientFunds),
        strategy.active && amount > 0 && old(user_deposit).amount >= amount && !settled_yield_fits(
            *old(user_deposit),
            strategy.reward_apy,
            now,
        ) ==> r == Err::<WithdrawEffects, ErrorCode>(ErrorCode::CalculationError),
        strategy.active && amount > 0 && old(user_deposit).amount >= amount && settled_yield_fits(
            *old(user_deposit),
            strategy.reward_apy,
            now,
        ) ==> (r matches Ok(e)
            && e == (WithdrawEffects { vault_withdrawal: amount, yt_burned: amount })
            && *final(user_deposit) == (UserDeposit {
                amount: (old(user_deposit).amount - amount) as u64,
                yield_earned: settled_yield(*old(user_deposit), strategy.reward_apy, now) as u64,
                last_yield_calculation: now,
                ..*old(user_deposit)
            })),
{
    if !strategy.active {
        return Err(ErrorCode::InvalidStrategy);
    }
    if amount == 0 {
        return Err(ErrorCode::InvalidAmount);
    }
    if user_deposit.amount < amount {
        return Err(ErrorCode::InsufficientFunds);
    }
    let d1 = match settle_yield(*user_deposit, strategy.reward_apy, now) {
        Some(d) => d,
        None => return Err(ErrorCode::CalculationError),
    };
    let new_amount = match d1.amount.checked_sub(amount) {
        Some(v) => v,
        None => return Err(ErrorCode::CalculationError),
    };
    *user_deposit = UserDeposit { amount: new_amount, last_yield_calculation: now, ..d1 };
    Ok(WithdrawEffects { vault_withdrawal: amount, yt_burned: amount })
}

/// The principal currently deposited.
pub fn get_user_balance(user_deposit: &UserDeposit) -> (r: Result<u64, ErrorCode>)
    ensures
        r == Ok::<u64, ErrorCode>(user_deposit.amount),
{
    Ok(user_deposit.amount)
}

/// The yield the user would be owed at `now`: the settled total plus what has
/// accrued since the last settlement. Changes nothing.
pub fn calculate_pending_yield(
    user_deposit: &UserDeposit,
    strategy: &Strategy,
    now: i64,
) -> (r: Result<u64, ErrorCode>)
    requires
        fits_i64(now - user_deposit.last_yield_calculation),
    ensures
        settled_yield_fits(*user_deposit, strategy.reward_apy, now) ==> r == Ok::<u64, ErrorCode>(
            settled_yield(*user_deposit, strategy.reward_apy, now) as u64,
        ),
        !settled_yield_fits(*user_deposit, strategy.reward_apy, now) ==> r == Err::<
            u64,
            ErrorCode,
        >(ErrorCode::CalculationError),
{
    let elapsed: i64 = now - user_deposit.last_yield_calculation;
    if elapsed <= 0 || user_deposit.amount == 0 {
        return Ok(user_deposit.yield_earned);
    }
    let inc = match checked_yield_increment(user_deposit.amount, strategy.reward_apy, elapsed as u64)
        {
        Some(v) => v,
        None => return Err(ErrorCode::CalculationError),
    };
    match user_deposit.yield_earned.checked_add(inc) {
        Some(total) => Ok(total),
        None => Err(ErrorCode::CalculationError),
    }
}

/// Redeems `yt_amount` yield tokens: burns them, pays out the same principal
/// plus the proportional share of the settled yield, and keeps the rest of
/// the yield on the record. Refused before the deposit has rested
/// `MIN_HOLD_SECONDS`.
pub fn redeem(
    strategy: &Strategy,
    strategy_key: AccountId,
    user_deposit: &mut UserDeposit,
    user_yt_balance: u64,
    yt_amount: u64,
    now: i64,
) -> (r: Result<RedeemEffects, ErrorCode>)
    requires
        (strategy.active && yt_amount > 0 && old(user_deposit).strategy == strategy_key
            && user_yt_balance >= yt_amount) ==> fits_i64(now - old(user_deposit).deposit_time),
        (strategy.active && yt_amount > 0 && old(user_deposit).strategy == strategy_key
            && user_yt_balance >= yt_amount && now - old(user_deposit).deposit_time
            >= MIN_HOLD_SECONDS) ==> fits_i64(now - old(user_deposit).last_yield_calculation),
    ensures
        r is Err ==> *final(user_deposit) == *old(user_deposit),
        !strategy.active ==> r == Err::<RedeemEffects, ErrorCode>(ErrorCode::InvalidStrategy),
        strategy.active && yt_amount == 0 ==> r == Err::<RedeemEffects, ErrorCode>(
            ErrorCode::InvalidAmount,
        ),
        strategy.active && yt_amount > 0 && old(user_deposit).strategy != strategy_key ==> r
            == Err::<RedeemEffects, ErrorCode>(ErrorCode::InvalidStrategy),
        strategy.active && yt_amount > 0 && old(user_deposit).strategy == strategy_key
            && user_yt_balance < yt_amount ==> r == Err::<RedeemEffects, ErrorCode>(
            ErrorCode::InsufficientYieldTokens,
        ),
        strategy.active && yt_amount > 0 && old(user_deposit).strategy == strategy_key
            && user_yt_balance >= yt_amount && now - old(user_deposit).deposit_time
            < MIN_HOLD_SECONDS ==> r == Err::<RedeemEffects, ErrorCode>(ErrorCode::TooEarlyToRedeem),
        ({
            let d = *old(user_deposit);
            let apy = strategy.reward_apy;
            let checks = strategy.active && yt_amount > 0 && d.strategy == strategy_key
                && user_yt_balance >= yt_amount && now - d.deposit_time >= MIN_HOLD_SECONDS;
            &&& (checks && !redeem_math_fits(d, apy, yt_amount, now)) ==> r == Err::<
                RedeemEffects,
                ErrorCode,
            >(ErrorCode::CalculationError)
            &&& (checks && redeem_math_fits(d, apy, yt_amount, now)) ==> (r matches Ok(e)
                && e == (RedeemEffects {
                    yt_burned: yt_amount,
                    vault_payout: (yt_amount + redeem_yield_part(d, apy, yt_amount, now)) as u64,
                })
                && *final(user_deposit) == (UserDeposit {
                    amount: (d.amount - yt_amount) as u64,
                    yield_earned: (settled_yield(d, apy, now) - redeem_yield_part(
                        d,
                        apy,
                        yt_amount,
                        now,
                    )) as u64,
                    last_yield_calculation: now,
                    ..d
                }))
        }),
{
    if !strategy.active {
        return Err(ErrorCode::InvalidStrategy);
    }
    if yt_amount == 0 {
        return Err(ErrorCode::InvalidAmount);
    }
    if user_deposit.strategy != strategy_key {
        return Err(ErrorCode::InvalidStrategy);
    }
    if user_yt_balance < yt_amount {
        return Err(ErrorCode::InsufficientYieldTokens);
    }
    if now - user_deposit.deposit_time < MIN_HOLD_SECONDS {
        return Err(ErrorCode::TooEarlyToRedeem);
    }
    let settled = match settle_yield(*user_deposit, strategy.reward_apy, now) {
        Some(d) => d,
        None => return Err(ErrorCode::CalculationError),
    };
    let total_yield = settled.yield_earned;
    let ratio: u64 = if user_deposit.amount > 0 {
        match yt_amount.checked_mul(RATE_SCALE) {
            Some(p) => p / user_deposit.amount,
            None => return Err(ErrorCode::CalculationError),
        }
    } else {
        RATE_SCALE
    };
    let yield_part = match total_yield.checked_mul(ratio) {
        Some(p) => p / RATE_SCALE,
        None => return Err(ErrorCode::CalculationError),
    };
    let payout = match yt_amount.checked_add(yield_part) {
        Some(v) => v,
        None => return Err(ErrorCode::CalculationError),
    };
    let new_amount = match user_deposit.amount.checked_sub(yt_amount) {
        Some(v) => v,
        None => return Err(ErrorCode::CalculationError),
    };
    proof {
        // From here the deposit covers the redemption, so the claimed ratio is
        // at most the full scale and the yield part at most the settled total.
        assert(user_deposit.amount > 0);
        lemma_scaled_fraction_le_scale(yt_amount, user_deposit.amount, RATE_SCALE);
        lemma_ratio_part_le_base(total_yield, ratio, RATE_SCALE);
    }
    let new_yield = match total_yield.checked_sub(yield_part) {
        Some(v) => v,
        None => return Err(ErrorCode::CalculationError),
    };
    user_deposit.amount = new_amount;
    user_deposit.yield_earned = new_yield;
    user_deposit.last_yield_calculation = now;
    Ok(RedeemEffects { yt_burned: yt_amount, vault_payout: payout })
}

/// Opens a strategy with the given reward rate; refused outside the accepted
/// bounds. The host has already created the yield-token mint whose address is
/// passed in.
pub fn create_strategy(
    strategy_id: u64,
    admin: AccountId,
    token_address: AccountId,
    token_yield_address: AccountId,
    reward_apy: u64,
    now: i64,
) -> (r: Result<Strategy, ErrorCode>)
    ensures
        (reward_apy < MIN_REWARD_APY || reward_apy > MAX_REWARD_APY) ==> r == Err::<
            Strategy,
            ErrorCode,
        >(ErrorCode::InvalidAPY),
        MIN_REWARD_APY <= reward_apy <= MAX_REWARD_APY ==> (r matches Ok(s)
            && s == (Strategy {
                strategy_id,
                admin,
                token_address,
                token_yield_address,
                reward_apy,
                created_at: now,
                active: true,
                total_deposited: 0,
            })
            && s.wf()),
{
    if reward_apy > MAX_REWARD_APY {
        return Err(ErrorCode::InvalidAPY);
    }
    if reward_apy < MIN_REWARD_APY {
        return Err(ErrorCode::InvalidAPY);
    }
    Ok(Strategy {
        strategy_id,
        admin,
        token_address,
        token_yield_address,
        reward_apy,
        created_at: now,
        active: true,
        total_deposited: 0,
    })
}

/// Flips the strategy between active and inactive. Only the strategy's admin
/// may do so.
pub fn toggle_strategy_status(
    strategy: &mut Strategy,
    admin: AccountId,
    _strategy_id: u64,
) -> (r: Result<(), ErrorCode>)
    ensures
        admin != old(strategy).admin ==> r == Err::<(), ErrorCode>(ErrorCode::Unauthorized)
            && *final(strategy) == *old(strategy),
        admin == old(strategy).admin ==> r == Ok::<(), ErrorCode>(()) && *final(strategy)
            == (Strategy { active: !old(strategy).active, ..*old(strategy) }),
{
    if admin != strategy.admin {
        return Err(ErrorCode::Unauthorized);
    }
    strategy.active = !strategy.active;
    Ok(())
}

/// Drops the settled yield and restarts accrual at `now`.
pub fn reset_user_yield(user_deposit: &mut UserDeposit, now: i64) -> (r: Result<(), ErrorCode>)
    ensures
        r == Ok::<(), ErrorCode>(()),
        *final(user_deposit) == (UserDeposit {
            yield_earned: 0,
            last_yield_calculation: now,
            ..*old(user_deposit)
        }),
{
    user_deposit.yield_earned = 0;
    user_deposit.last_yield_calculation = now;
    Ok(())
}

} // verus!
