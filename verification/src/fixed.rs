//! Fixed-point numbers in thousandths.
//!
//! Every length, angle and factor of this crate is an `i64` that counts
//! thousandths: `1000` stands for one pixel, one degree or the factor one.
//! Stored values stay within [`LIMIT`] on either side of zero, and every
//! operation that could leave that range saturates at its ends.

use vstd::prelude::*;

verus! {

/// One whole unit, in thousandths.
pub const UNIT: i64 = 1000;

/// The largest magnitude that a stored value may have: a thousand million units.
pub const LIMIT: i64 = 1_000_000_000_000;

/// Whether `v` lies in the range of stored values.
pub open spec fn in_range(v: int) -> bool {
    -LIMIT <= v <= LIMIT
}

/// `v`, moved to the nearest end of the range of stored values where it lies outside.
pub open spec fn clamped(v: int) -> int {
    if v < -LIMIT {
        -LIMIT as int
    } else if v > LIMIT {
        LIMIT as int
    } else {
        v
    }
}

/// The quotient of `n` by a positive `d`, rounded toward zero.
pub open spec fn toward_zero(n: int, d: int) -> int {
    if n >= 0 {
        n / d
    } else {
        -((-n) / d)
    }
}

/// The quotient of `n` by `d`, rounded toward zero; zero where `d` is zero.
pub open spec fn quotient(n: int, d: int) -> int {
    if d > 0 {
        toward_zero(n, d)
    } else if d < 0 {
        toward_zero(-n, -d)
    } else {
        0
    }
}

/// The magnitude of `v`.
pub open spec fn magnitude(v: int) -> int {
    if v >= 0 {
        v
    } else {
        -v
    }
}

/// Says whether `v` lies in the range of stored values.
pub fn within(v: i64) -> (r: bool)
    ensures
        r == in_range(v as int),
{
    -LIMIT <= v && v <= LIMIT
}

/// Brings `v` into the range of stored values, saturating at its ends.
pub fn clamp(v: i128) -> (r: i64)
    ensures
        r == clamped(v as int),
        in_range(r as int),
{
    if v < -(LIMIT as i128) {
        -LIMIT
    } else if v > LIMIT as i128 {
        LIMIT
    } else {
        v as i64
    }
}

/// One unit more than `v`, saturating at the upper end of the range.
pub fn raise(v: i64) -> (r: i64)
    ensures
        r == clamped(v + UNIT),
        in_range(r as int),
{
    clamp(v as i128 + UNIT as i128)
}

/// One unit less than `v`, saturating at the lower end of the range.
pub fn lower(v: i64) -> (r: i64)
    ensures
        r == clamped(v - UNIT),
        in_range(r as int),
{
    clamp(v as i128 - UNIT as i128)
}

/// Divides `n` by `d`, rounding toward zero.
pub fn divide(n: i128, d: i128) -> (r: i128)
    requires
        d != 0,
        n != i128::MIN,
        d != i128::MIN,
    ensures
        r == quotient(n as int, d as int),
        magnitude(r as int) <= magnitude(n as int),
{
    if d > 0 {
        let r: i128 = n / d;
        proof {
            lemma_toward_zero_bound(n as int, d as int);
        }
        r
    } else {
        let r: i128 = (-n) / (-d);
        proof {
            lemma_toward_zero_bound(-n as int, -d as int);
        }
        r
    }
}

/// A quotient rounded toward zero is no larger in magnitude than its numerator,
/// and has the magnitude of the quotient of the magnitudes.
pub proof fn lemma_toward_zero_bound(n: int, d: int)
    requires
        d > 0,
    ensures
        magnitude(toward_zero(n, d)) == magnitude(n) / d,
        magnitude(toward_zero(n, d)) <= magnitude(n),
{
    let m = magnitude(n);
    assert(0 <= m / d <= m) by (nonlinear_arith)
        requires
            m >= 0,
            d > 0,
    ;
}

} // verus!
