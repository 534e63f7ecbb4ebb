//! Fixed-point decimal odds and the payout arithmetic built on them.
//!
//! Odds are whole numbers in thousandths: decimal odds of 2.5 are stored as
//! 2500. Amounts are always in the currency's smallest subunit.

use vstd::prelude::*;

verus! {

/// How many stored units make decimal odds of exactly 1.0.
pub const ODDS_SCALE: u16 = 1000;

/// The gross return of a winning stake, stake and profit together, rounded
/// down to a whole subunit.
pub open spec fn gross_return(amount: int, odds: int) -> int {
    amount * odds / 1000
}

/// Whether the implied probabilities of a book's outcomes, `1000 / odds` each,
/// add up to one or more.
///
/// The sum is taken exactly, as a sum of fractions and not of truncated
/// quotients. For positive odds `1000/a + 1000/b >= 1` says the same as
/// `1000 * (a + b) >= a * b`, and likewise with three outcomes, so whole
/// numbers suffice to state it.
pub open spec fn implied_sum_reaches_one(first: int, second: int, third: Option<int>) -> bool {
    match third {
        None => 1000 * (first + second) >= first * second,
        Some(t) => 1000 * (first * second + first * t + second * t) >= first * second * t,
    }
}

/// The odds that a market may carry: every outcome pays more than the stake,
/// and the implied probabilities add up to less than one.
pub open spec fn acceptable_odds(first: int, second: int, third: Option<int>) -> bool {
    &&& first > 1000
    &&& second > 1000
    &&& third matches Some(t) ==> t > 1000
    &&& !implied_sum_reaches_one(first, second, third)
}

/// The third outcome's odds as a mathematical integer, where there is one.
pub open spec fn third_as_int(third: Option<u16>) -> Option<int> {
    match third {
        None => None,
        Some(t) => Some(t as int),
    }
}

/// Computes the gross return of `amount` staked at `odds`.
pub fn payout(amount: u64, odds: u16) -> (gross: u128)
    ensures
        gross == gross_return(amount as int, odds as int),
{
    assert(amount * odds <= 0xffff_ffff_ffff_ffff * 0xffff) by (nonlinear_arith)
        requires
            0 <= amount <= 0xffff_ffff_ffff_ffff,
            0 <= odds <= 0xffff,
    ;
    (amount as u128) * (odds as u128) / 1000
}

/// Decides whether a market may carry the given odds.
pub fn odds_are_acceptable(first: u16, second: u16, third: Option<u16>) -> (ok: bool)
    ensures
        ok == acceptable_odds(first as int, second as int, third_as_int(third)),
{
    if first <= ODDS_SCALE || second <= ODDS_SCALE {
        return false;
    }
    let a: u64 = first as u64;
    let b: u64 = second as u64;
    assert(a * b <= 0xffff * 0xffff) by (nonlinear_arith)
        requires
            0 <= a <= 0xffff,
            0 <= b <= 0xffff,
    ;
    match third {
        None => 1000 * (a + b) < a * b,
        Some(t) => {
            if t <= ODDS_SCALE {
                return false;
            }
            let c: u64 = t as u64;
            assert(a * c <= 0xffff * 0xffff && b * c <= 0xffff * 0xffff && a * b * c <= 0xffff
                * 0xffff * 0xffff) by (nonlinear_arith)
                requires
                    0 <= a <= 0xffff,
                    0 <= b <= 0xffff,
                    0 <= c <= 0xffff,
            ;
            1000 * (a * b + a * c + b * c) < a * b * c
        },
    }
}

/// Scaled by any common multiple `d` of its odds, the implied probabilities of
/// a two-way book are the whole numbers `1000 * d / a` and `1000 * d / b`, and
/// they add up to `d` or more exactly when `implied_sum_reaches_one` says so.
pub proof fn lemma_two_way_sum_is_exact(a: int, b: int, d: int)
    requires
        a > 0,
        b > 0,
        d > 0,
        d % a == 0,
        d % b == 0,
    ensures
        implied_sum_reaches_one(a, b, None) <==> 1000 * (d / a) + 1000 * (d / b) >= d,
{
    let k = d / a;
    let l = d / b;
    assert(d == a * k && d == b * l) by (nonlinear_arith)
        requires
            a > 0,
            b > 0,
            d % a == 0,
            d % b == 0,
            k == d / a,
            l == d / b,
    ;
    assert((1000 * (a + b) >= a * b) <==> (1000 * k + 1000 * l >= d)) by (nonlinear_arith)
        requires
            a > 0,
            b > 0,
            d > 0,
            d == a * k,
            d == b * l,
    ;
}

/// Scaled by any common multiple `d` of its odds, the implied probabilities of
/// a three-way book are whole numbers, and they add up to `d` or more exactly
/// when `implied_sum_reaches_one` says so.
pub proof fn lemma_three_way_sum_is_exact(a: int, b: int, c: int, d: int)
    requires
        a > 0,
        b > 0,
        c > 0,
        d > 0,
        d % a == 0,
        d % b == 0,
        d % c == 0,
    ensures
        implied_sum_reaches_one(a, b, Some(c)) <==> 1000 * (d / a) + 1000 * (d / b) + 1000 * (d
            / c) >= d,
{
    let k = d / a;
    let l = d / b;
    let m = d / c;
    assert(d == a * k && d == b * l && d == c * m) by (nonlinear_arith)
        requires
            a > 0,
            b > 0,
            c > 0,
            d % a == 0,
            d % b == 0,
            d % c == 0,
            k == d / a,
            l == d / b,
            m == d / c,
    ;
    assert((1000 * (a * b + a * c + b * c) >= a * b * c) <==> (1000 * k + 1000 * l + 1000 * m
        >= d)) by (nonlinear_arith)
        requires
            a > 0,
            b > 0,
            c > 0,
            d > 0,
            d == a * k,
            d == b * l,
            d == c * m,
    ;
}

} // verus!
