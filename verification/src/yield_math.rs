use vstd::prelude::*;

verus! {

use vstd::arithmetic::div_mod::{lemma_div_by_multiple, lemma_div_denominator, lemma_div_is_ordered};
use vstd::arithmetic::mul::{lemma_mul_inequality, lemma_mul_is_commutative, lemma_mul_nonnegative};

/// Seconds in the 365-day year that the reward formula uses.
pub const YEAR_SECONDS: u64 = 31_536_000;

/// Scale of reward rates and of redemption ratios: a rate of `RATE_SCALE`
/// pays the full balance over one year, and a ratio of `RATE_SCALE` means
/// the whole deposit.
pub const RATE_SCALE: u64 = 10_000;

/// `x` is representable as an `i64`.
pub open spec fn fits_i64(x: int) -> bool {
    i64::MIN <= x <= i64::MAX
}

/// The two's-complement reading of a 64-bit signed value as unsigned.
pub open spec fn wrap_to_u64(x: int) -> int {
    if x >= 0 {
        x
    } else {
        x + 0x1_0000_0000_0000_0000
    }
}

/// Interest earned on `amount` at yearly rate `apy` (in `RATE_SCALE` units)
/// over `elapsed` seconds, rounded down.
pub open spec fn yield_increment(amount: u64, apy: u64, elapsed: int) -> int {
    (amount * apy * elapsed) / ((YEAR_SECONDS * RATE_SCALE) as int)
}

/// The reward computation on checked 64-bit arithmetic: `Some` exactly when
/// both intermediate products fit in a `u64`.
pub fn checked_yield_increment(amount: u64, apy: u64, elapsed: u64) -> (r: Option<u64>)
    ensures
        r is Some <==> amount * apy <= u64::MAX && amount * apy * elapsed <= u64::MAX,
        r matches Some(y) ==> y == yield_increment(amount, apy, elapsed as int),
{
    match amount.checked_mul(apy) {
        Some(p) => match p.checked_mul(elapsed) {
            Some(q) => Some(q / (YEAR_SECONDS * RATE_SCALE)),
            None => None,
        },
        None => None,
    }
}

/// Yield accrued over a longer period is never smaller: the reward formula is
/// monotone in the elapsed time.
pub proof fn lemma_yield_monotone(amount: u64, apy: u64, e1: int, e2: int)
    requires
        e1 <= e2,
    ensures
        yield_increment(amount, apy, e1) <= yield_increment(amount, apy, e2),
{
    lemma_mul_nonnegative(amount as int, apy as int);
    lemma_mul_inequality(e1, e2, amount * apy);
    lemma_mul_is_commutative(e1, amount * apy);
    lemma_mul_is_commutative(e2, amount * apy);
    lemma_div_is_ordered(amount * apy * e1, amount * apy * e2, (YEAR_SECONDS * RATE_SCALE) as int);
}

/// Over exactly one year the reward comes to `amount * apy / RATE_SCALE`:
/// the rate scale reads as hundredths of a percent per year.
pub proof fn lemma_full_year_yield(amount: u64, apy: u64)
    ensures
        yield_increment(amount, apy, YEAR_SECONDS as int) == (amount * apy) / (RATE_SCALE as int),
{
    let p = amount * apy;
    lemma_mul_nonnegative(amount as int, apy as int);
    lemma_mul_nonnegative(p, YEAR_SECONDS as int);
    lemma_div_denominator(p * (YEAR_SECONDS as int), YEAR_SECONDS as int, RATE_SCALE as int);
    lemma_div_by_multiple(p, YEAR_SECONDS as int);
}

/// Taking a part of at most the whole gives a ratio of at most the full
/// scale: `part <= whole` implies `(part * scale) / whole <= scale`.
pub proof fn lemma_scaled_fraction_le_scale(part: u64, whole: u64, scale: u64)
    requires
        0 < whole,
        part <= whole,
    ensures
        (part * scale) / (whole as int) <= scale,
{
    lemma_mul_inequality(part as int, whole as int, scale as int);
    lemma_mul_is_commutative(whole as int, scale as int);
    lemma_div_by_multiple(scale as int, whole as int);
    lemma_div_is_ordered(part * scale, whole * scale, whole as int);
}

/// Applying a ratio of at most the scale and dividing by the scale never
/// exceeds the base: `ratio <= scale` implies `(base * ratio) / scale <= base`.
pub proof fn lemma_ratio_part_le_base(base: u64, ratio: u64, scale: u64)
    requires
        0 < scale,
        ratio <= scale,
    ensures
        (base * ratio) / (scale as int) <= base,
{
    lemma_mul_inequality(ratio as int, scale as int, base as int);
    lemma_mul_is_commutative(ratio as int, base as int);
    lemma_mul_is_commutative(scale as int, base as int);
    lemma_div_by_multiple(base as int, scale as int);
    lemma_div_is_ordered(base * ratio, base * scale, scale as int);
}

} // verus!
