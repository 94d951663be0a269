//! Fixed-point arithmetic shared by every tax computation.
//!
//! Monetary amounts are i64 counts of 1/100 krone; rates are i64 counts of
//! 1/100 percent. Applying a rate therefore means `amount * rate / 10_000`,
//! truncated toward zero, and an effective rate is `tax * 10_000 / income`,
//! truncated the same way.

use vstd::prelude::*;
use vstd::arithmetic::div_mod::{lemma_div_is_ordered, lemma_div_pos_is_pos};
use vstd::arithmetic::mul::{lemma_mul_inequality, lemma_mul_nonnegative};
use vstd::math::abs;

verus! {

/// One whole (100 percent, or one krone per krone) at the fixed-point scale.
pub const RATE_SCALE: i64 = 10_000;

/// Largest magnitude accepted for a monetary input field (ten billion kroner,
/// in hundredths): keeps every intermediate sum inside i64.
pub const AMOUNT_LIMIT: i64 = 1_000_000_000_000_000;

/// Largest magnitude accepted for a rate input field (one thousand percent).
pub const RATE_LIMIT: i64 = 100_000;

/// Largest base ever handed to [`apply_rate`]: an intermediate taxable amount
/// is a sum of at most a few input-sized terms.
pub const BASE_LIMIT: i64 = 4_000_000_000_000_000;

/// Largest magnitude [`apply_rate`] can return, `BASE_LIMIT * RATE_LIMIT /
/// RATE_SCALE`.
pub const TAX_LIMIT: i64 = 40_000_000_000_000_000;

/// Largest total-tax magnitude ever handed to [`compute_effective_rate`].
pub const TOTAL_LIMIT: i64 = 1_000_000_000_000_000_000;

/// A negative intermediate base is replaced by zero, never rejected.
pub open spec fn clamp0(x: int) -> int {
    if x >= 0 {
        x
    } else {
        0
    }
}

/// Division truncated toward zero (the engine never rounds away from zero).
pub open spec fn div_trunc(p: int, d: int) -> int
    recommends
        d > 0,
{
    if p >= 0 {
        p / d
    } else {
        -((-p) / d)
    }
}

/// The share of `amount` taken at `rate`: `amount * rate / 10_000`, truncated
/// toward zero.
pub open spec fn scaled(amount: int, rate: int) -> int {
    div_trunc(amount * rate, RATE_SCALE as int)
}

/// Total tax as a rate (in 1/100 percent) of total income; zero whenever the
/// income is not positive, so a zero income never divides.
pub open spec fn effective_rate(total_tax: int, total_income: int) -> int {
    if total_income > 0 {
        div_trunc(total_tax * (RATE_SCALE as int), total_income)
    } else {
        0
    }
}

/// The magnitude of a truncated quotient is the quotient of the magnitudes.
pub proof fn lemma_div_trunc_abs(p: int, d: int)
    requires
        d > 0,
    ensures
        abs(div_trunc(p, d)) == (abs(p) as int) / d,
{
    if p >= 0 {
        lemma_div_pos_is_pos(p, d);
    } else {
        lemma_div_pos_is_pos(-p, d);
    }
}

/// Bounds on the factors bound the scaled result.
pub proof fn lemma_scaled_bound(amount: int, rate: int, amount_bound: int, rate_bound: int)
    requires
        abs(amount) <= amount_bound,
        abs(rate) <= rate_bound,
    ensures
        abs(scaled(amount, rate)) <= amount_bound * rate_bound / (RATE_SCALE as int),
{
    assert(abs(amount * rate) == abs(amount) * abs(rate)) by (nonlinear_arith);
    lemma_mul_inequality(abs(amount) as int, amount_bound, abs(rate) as int);
    lemma_mul_inequality(abs(rate) as int, rate_bound, amount_bound);
    lemma_div_trunc_abs(amount * rate, RATE_SCALE as int);
    lemma_div_is_ordered(abs(amount * rate) as int, amount_bound * rate_bound, RATE_SCALE as int);
}

/// Applying a rate to a non-negative amount at a non-negative rate never goes
/// negative.
pub proof fn lemma_scaled_nonneg(amount: int, rate: int)
    requires
        amount >= 0,
        rate >= 0,
    ensures
        scaled(amount, rate) >= 0,
{
    lemma_mul_nonnegative(amount, rate);
    lemma_div_pos_is_pos(amount * rate, RATE_SCALE as int);
}

/// `amount * rate / 10_000`, truncated toward zero, computed without overflow
/// by working on magnitudes in 128 bits.
pub fn apply_rate(amount: i64, rate: i64) -> (r: i64)
    requires
        -BASE_LIMIT <= amount <= BASE_LIMIT,
        -RATE_LIMIT <= rate <= RATE_LIMIT,
    ensures
        r == scaled(amount as int, rate as int),
        -TAX_LIMIT <= r <= TAX_LIMIT,
{
    let wide_amount: i128 = amount as i128;
    let wide_rate: i128 = rate as i128;
    let negative: bool = (wide_amount < 0) != (wide_rate < 0);
    let amount_mag: u128 = if wide_amount < 0 {
        (-wide_amount) as u128
    } else {
        wide_amount as u128
    };
    let rate_mag: u128 = if wide_rate < 0 {
        (-wide_rate) as u128
    } else {
        wide_rate as u128
    };
    proof {
        assert(amount_mag == abs(amount as int));
        assert(rate_mag == abs(rate as int));
        lemma_mul_inequality(amount_mag as int, BASE_LIMIT as int, rate_mag as int);
        lemma_mul_inequality(rate_mag as int, RATE_LIMIT as int, BASE_LIMIT as int);
        assert(amount_mag * rate_mag <= (BASE_LIMIT as int) * (RATE_LIMIT as int));
    }
    let product: u128 = amount_mag * rate_mag;
    let quotient: u128 = product / (RATE_SCALE as u128);
    proof {
        assert(product == abs((amount as int) * (rate as int))) by (nonlinear_arith)
            requires
                amount_mag == abs(amount as int),
                rate_mag == abs(rate as int),
                product == amount_mag * rate_mag,
        ;
        lemma_div_is_ordered(
            product as int,
            (BASE_LIMIT as int) * (RATE_LIMIT as int),
            RATE_SCALE as int,
        );
        lemma_div_trunc_abs((amount as int) * (rate as int), RATE_SCALE as int);
        assert(quotient == abs(scaled(amount as int, rate as int)));
        assert(((amount as int) * (rate as int) < 0) == (negative
            && (amount as int) * (rate as int) != 0)) by (nonlinear_arith)
            requires
                negative == (((amount as i128) < 0) != ((rate as i128) < 0)),
        ;
    }
    if negative {
        -(quotient as i64)
    } else {
        quotient as i64
    }
}

/// `total_tax * 10_000 / total_income`, truncated toward zero, or zero when
/// the income is not positive.
pub fn compute_effective_rate(total_tax: i64, total_income: i64) -> (r: i128)
    requires
        -TOTAL_LIMIT <= total_tax <= TOTAL_LIMIT,
    ensures
        r == effective_rate(total_tax as int, total_income as int),
{
    if total_income > 0 {
        let tax_mag: u128 = if total_tax < 0 {
            (-(total_tax as i128)) as u128
        } else {
            total_tax as u128
        };
        proof {
            assert(tax_mag == abs(total_tax as int));
            lemma_mul_inequality(tax_mag as int, TOTAL_LIMIT as int, RATE_SCALE as int);
        }
        let numerator: u128 = tax_mag * (RATE_SCALE as u128);
        let quotient: u128 = numerator / (total_income as u128);
        proof {
            assert(tax_mag == abs(total_tax as int));
            assert(numerator == abs((total_tax as int) * (RATE_SCALE as int)));
            lemma_div_trunc_abs((total_tax as int) * (RATE_SCALE as int), total_income as int);
            lemma_div_is_ordered(
                numerator as int,
                (TOTAL_LIMIT as int) * (RATE_SCALE as int),
                total_income as int,
            );
            assert(quotient == abs(
                effective_rate(total_tax as int, total_income as int),
            ));
        }
        if total_tax < 0 {
            -(quotient as i128)
        } else {
            quotient as i128
        }
    } else {
        0
    }
}

/// `max(x, 0)`: the defensive clamp the engine uses instead of rejecting a
/// negative base.
pub fn clamp_to_zero(x: i64) -> (r: i64)
    ensures
        r == clamp0(x as int),
{
    if x >= 0 {
        x
    } else {
        0
    }
}

} // verus!
