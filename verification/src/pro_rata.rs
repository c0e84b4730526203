//! The share of a recorded deposit that is given back when storage is freed.
//!
//! The share is computed by `sp_runtime::FixedU128`, a fixed-point number with
//! eighteen decimal places. The two calls into it are the only code of this
//! library that is not verified; the contracts of the two functions that make
//! them say what is assumed of `FixedU128`.

use crate::primitives::Balance;
use sp_runtime::{FixedPointNumber, FixedU128};
use vstd::prelude::*;

verus! {

/// The inner value of the `FixedU128` that stands for one whole: ten to the
/// eighteenth.
pub const FIXED_ONE: u128 = 1_000_000_000_000_000_000;

/// The inner value of the fixed-point ratio `n / d`, rounded down; none for a
/// zero denominator.
pub open spec fn spec_from_rational(n: u32, d: u32) -> Option<u128> {
    if d == 0 {
        None
    } else {
        Some((n * FIXED_ONE / (d as int)) as u128)
    }
}

/// The product of the fixed-point ratio with inner value `ratio` and the
/// integer `n`, rounded down and held at the largest balance.
pub open spec fn spec_mul_int(ratio: u128, n: Balance) -> Balance {
    let product = ratio * n / (FIXED_ONE as int);
    if product > Balance::MAX {
        Balance::MAX
    } else {
        product as Balance
    }
}

/// Calls `FixedU128::checked_from_rational` on two 32-bit numbers and hands
/// back the inner value of the ratio that it returns.
///
/// Assumed of `checked_from_rational`: for a zero denominator it returns none;
/// otherwise it returns the ratio whose inner value is `n * 10^18 / d`, rounded
/// towards zero. For 32-bit operands that value always fits, so none is
/// returned for a zero denominator only.
#[verifier::external_body]
fn checked_from_rational(n: u32, d: u32) -> (ratio: Option<u128>)
    ensures
        ratio == spec_from_rational(n, d),
{
    match FixedU128::checked_from_rational(n, d) {
        Some(ratio) => Some(ratio.into_inner()),
        None => None,
    }
}

/// Calls `FixedU128::saturating_mul_int` on the ratio with inner value `ratio`
/// and the balance `n`.
///
/// Assumed of `saturating_mul_int`: it returns `ratio * n / 10^18`, rounded
/// towards zero, or the largest balance where that does not fit.
#[verifier::external_body]
fn saturating_mul_int(ratio: u128, n: Balance) -> (product: Balance)
    ensures
        product == spec_mul_int(ratio, n),
{
    FixedU128::from_inner(ratio).saturating_mul_int(n)
}

/// The ratio of `removed` units to `stored` units as a fixed-point number, at
/// most one whole. Where nothing is stored, whatever is removed is no less
/// than all of it: the ratio is one whole, and zero only if nothing is removed.
pub open spec fn spec_ratio(removed: u32, stored: u32) -> u128 {
    match spec_from_rational(removed, stored) {
        Some(ratio) => if ratio < FIXED_ONE {
            ratio
        } else {
            FIXED_ONE
        },
        None => if removed > 0 {
            FIXED_ONE
        } else {
            0
        },
    }
}

/// The part of `deposit` that is given back when `removed` of `stored` units
/// are freed.
pub open spec fn spec_pro_rata(removed: u32, stored: u32, deposit: Balance) -> Balance {
    (spec_ratio(removed, stored) * deposit / (FIXED_ONE as int)) as Balance
}

/// Computes the part of `deposit` that is given back when `removed` of
/// `stored` units are freed.
///
/// The ratio of the two counts is one whole where at least as much is freed
/// as is stored, also where nothing is stored: the whole deposit on record is
/// then given back. Freeing nothing gives nothing back.
pub fn pro_rata(removed: u32, stored: u32, deposit: Balance) -> (refund: Balance)
    ensures
        refund == spec_pro_rata(removed, stored, deposit),
        refund <= deposit,
{
    let ratio: u128 = match checked_from_rational(removed, stored) {
        Some(ratio) => if ratio < FIXED_ONE {
            ratio
        } else {
            FIXED_ONE
        },
        // No ratio can be taken of a record that holds nothing.
        None => if removed > 0 {
            FIXED_ONE
        } else {
            0
        },
    };
    proof {
        lemma_refund_is_capped(removed, stored, deposit);
    }
    saturating_mul_int(ratio, deposit)
}

/// A refund never exceeds the deposit on record.
pub proof fn lemma_refund_is_capped(removed: u32, stored: u32, deposit: Balance)
    ensures
        spec_ratio(removed, stored) * deposit / (FIXED_ONE as int) <= deposit,
        spec_pro_rata(removed, stored, deposit) <= deposit,
        spec_pro_rata(removed, stored, deposit) == spec_mul_int(
            spec_ratio(removed, stored),
            deposit,
        ),
{
    let ratio = spec_ratio(removed, stored) as int;
    let one = FIXED_ONE as int;
    let d = deposit as int;
    assert(0 <= ratio * d / one <= d) by (nonlinear_arith)
        requires
            0 <= ratio <= one,
            one > 0,
            d >= 0,
    ;
}

/// Freeing nothing gives nothing back, whatever is on record.
pub proof fn lemma_nothing_freed(stored: u32, deposit: Balance)
    ensures
        spec_pro_rata(0, stored, deposit) == 0,
{
    let one = FIXED_ONE as int;
    let n = stored as int;
    let d = deposit as int;
    if stored > 0 {
        assert(0 * one / n == 0) by (nonlinear_arith)
            requires
                n > 0,
        ;
    }
    assert(spec_ratio(0, stored) == 0);
    assert(0 * d / one == 0) by (nonlinear_arith)
        requires
            one > 0,
    ;
}

/// Freeing something, and at least as many units as are stored, gives back
/// the whole deposit on record, and never more. This holds of a record that
/// stores nothing, too.
pub proof fn lemma_full_refund(removed: u32, stored: u32, deposit: Balance)
    requires
        removed > 0,
        removed >= stored,
    ensures
        spec_pro_rata(removed, stored, deposit) == deposit,
{
    let one = FIXED_ONE as int;
    let m = removed as int;
    let n = stored as int;
    let d = deposit as int;
    if stored > 0 {
        assert(m * one / n >= one) by (nonlinear_arith)
            requires
                m >= n,
                n > 0,
                one > 0,
        ;
    }
    assert(spec_ratio(removed, stored) == FIXED_ONE);
    assert(one * d / one == d) by (nonlinear_arith)
        requires
            one > 0,
    ;
}

/// Freeing `removed` of `stored` units, `removed < stored`, gives back the
/// share `deposit * removed / stored` of the deposit on record: never more than
/// that share, and less than one unit plus `deposit / 10^18` below it.
pub proof fn lemma_partial_refund(removed: u32, stored: u32, deposit: Balance)
    requires
        removed < stored,
    ensures
        spec_pro_rata(removed, stored, deposit) * stored <= deposit * removed,
        deposit * removed * FIXED_ONE < (spec_pro_rata(removed, stored, deposit) + 1) * stored
            * FIXED_ONE + deposit * stored,
{
    let one = FIXED_ONE as int;
    let m = removed as int;
    let n = stored as int;
    let d = deposit as int;
    let q = m * one / n;
    assert(q * n <= m * one && m * one < q * n + n && 0 <= q < one) by (nonlinear_arith)
        requires
            q == m * one / n,
            0 <= m < n,
            one > 0,
    ;
    assert(spec_ratio(removed, stored) == q);
    let r = q * d / one;
    assert(r * one <= q * d && q * d < r * one + one && 0 <= r <= d) by (nonlinear_arith)
        requires
            r == q * d / one,
            0 <= q < one,
            d >= 0,
    ;
    assert(spec_pro_rata(removed, stored, deposit) == r);
    assert(r * n <= d * m) by (nonlinear_arith)
        requires
            r * one <= q * d,
            q * n <= m * one,
            one > 0,
            n > 0,
            d >= 0,
            r >= 0,
            q >= 0,
            m >= 0,
    ;
    assert(d * m * one < (r + 1) * n * one + d * n) by (nonlinear_arith)
        requires
            q * d < r * one + one,
            m * one < q * n + n,
            one > 0,
            n > 0,
            d >= 0,
            r >= 0,
            q >= 0,
            m >= 0,
    ;
}

} // verus!
