//! Scalar fixed-point helpers: Euclidean division and remainder on `i64`,
//! clamping, and a rational approximation of sine/cosine over
//! milli-degrees, scaled by `MILLI`.

use vstd::prelude::*;

verus! {

use vstd::arithmetic::div_mod::{lemma_div_is_ordered, lemma_div_nonincreasing, lemma_fundamental_div_mod, lemma_mod_bound};

/// Euclidean quotient of `n` by a positive divisor, matching the
/// mathematical `/` used in this crate's specifications.
pub fn div_euclid_i64(n: i64, d: i64) -> (r: i64)
    requires
        d > 0,
    ensures
        r == n as int / d as int,
        n >= 0 ==> 0 <= r <= n,
        n < 0 ==> n <= r <= 0,
{
    proof {
        let q = n as int / d as int;
        let m = n as int % d as int;
        lemma_fundamental_div_mod(n as int, d as int);
        lemma_mod_bound(n as int, d as int);
        if n >= 0 {
            lemma_div_is_ordered(0, n as int, d as int);
            lemma_div_nonincreasing(n as int, d as int);
        } else {
            lemma_div_is_ordered(n as int, 0, d as int);
            assert(q >= n) by (nonlinear_arith)
                requires
                    n < 0,
                    d >= 1,
                    n == d * q + m,
                    0 <= m < d,
                    q <= 0,
            ;
        }
    }
    n.checked_div_euclid(d).unwrap()
}

/// Euclidean remainder of `n` by a positive divisor, matching the
/// mathematical `%` used in this crate's specifications.
pub fn rem_euclid_i64(n: i64, d: i64) -> (r: i64)
    requires
        d > 0,
    ensures
        r == n as int % d as int,
{
    proof {
        lemma_mod_bound(n as int, d as int);
    }
    n.checked_rem_euclid(d).unwrap()
}

/// Clamps `v` into the closed interval `[lo, hi]`.
pub fn clamp_i64(v: i64, lo: i64, hi: i64) -> (r: i64)
    requires
        lo <= hi,
    ensures
        r == spec_clamp(v as int, lo as int, hi as int),
{
    if v < lo {
        lo
    } else if v > hi {
        hi
    } else {
        v
    }
}

pub open spec fn spec_clamp(v: int, lo: int, hi: int) -> int {
    if v < lo {
        lo
    } else if v > hi {
        hi
    } else {
        v
    }
}

/// One degree, in milli-degrees.
pub const DEG: i64 = 1000;

/// A full turn, in milli-degrees.
pub const FULL_TURN: i64 = 360000;

/// Half a turn, in milli-degrees.
pub const HALF_TURN: i64 = 180000;

/// A quarter turn, in milli-degrees.
pub const QUARTER_TURN: i64 = 90000;

/// Sine of `t` milli-degrees for `t` in `[0, 180000]`, scaled by 1000:
/// the rational approximation `4x(180 - x) / (40500 - x(180 - x))` (with
/// `x` in degrees), which is exact at 0, 30, 90, 150 and 180 degrees and
/// within 2/1000 everywhere on the half turn.
pub open spec fn spec_sin_half_milli(t: int) -> int {
    let p = t * (HALF_TURN - t);
    (4000 * p) / (40500000000 - p)
}

/// Sine of `a` milli-degrees, any `a`, scaled by 1000: the angle is
/// reduced to one turn and the second half turn is the mirrored negative
/// of the first.
pub open spec fn spec_sin_milli(a: int) -> int {
    let m = a % (FULL_TURN as int);
    if m <= HALF_TURN {
        spec_sin_half_milli(m)
    } else {
        -spec_sin_half_milli(m - HALF_TURN)
    }
}

/// Cosine of `a` milli-degrees, scaled by 1000: sine shifted by a
/// quarter turn.
pub open spec fn spec_cos_milli(a: int) -> int {
    spec_sin_milli(a + QUARTER_TURN)
}

proof fn lemma_sin_half_milli_range(t: int)
    requires
        0 <= t <= HALF_TURN,
    ensures
        0 <= spec_sin_half_milli(t) <= 1000,
{
    let p = t * (HALF_TURN - t);
    assert(0 <= p <= 8100000000) by (nonlinear_arith)
        requires
            0 <= t <= 180000,
            p == t * (180000 - t),
    ;
    let den = 40500000000 - p;
    lemma_div_is_ordered(0, 4000 * p, den);
    lemma_div_is_ordered(4000 * p, 1000 * den, den);
    assert((1000 * den) / den == 1000) by {
        vstd::arithmetic::div_mod::lemma_div_multiples_vanish(1000, den);
    }
}

/// Range of the sine approximation over all angles.
pub proof fn lemma_sin_milli_range(a: int)
    ensures
        -1000 <= spec_sin_milli(a) <= 1000,
{
    lemma_mod_bound(a, FULL_TURN as int);
    let m = a % (FULL_TURN as int);
    if m <= HALF_TURN {
        lemma_sin_half_milli_range(m);
    } else {
        lemma_sin_half_milli_range(m - HALF_TURN);
    }
}

fn sin_half_milli(t: i64) -> (r: i64)
    requires
        0 <= t <= HALF_TURN,
    ensures
        r == spec_sin_half_milli(t as int),
        0 <= r <= 1000,
{
    proof {
        assert(0 <= t * (HALF_TURN - t) <= 8100000000) by (nonlinear_arith)
            requires
                0 <= t <= 180000,
        ;
        lemma_sin_half_milli_range(t as int);
    }
    let p = t * (HALF_TURN - t);
    div_euclid_i64(4000 * p, 40500000000 - p)
}

/// Sine of `a` milli-degrees, scaled by 1000.
pub fn sin_milli(a: i64) -> (r: i64)
    ensures
        r == spec_sin_milli(a as int),
        -1000 <= r <= 1000,
{
    let m = rem_euclid_i64(a, FULL_TURN);
    proof {
        lemma_mod_bound(a as int, FULL_TURN as int);
    }
    if m <= HALF_TURN {
        sin_half_milli(m)
    } else {
        -sin_half_milli(m - HALF_TURN)
    }
}

/// Cosine of `a` milli-degrees, scaled by 1000.
pub fn cos_milli(a: i64) -> (r: i64)
    requires
        a <= i64::MAX - QUARTER_TURN,
    ensures
        r == spec_cos_milli(a as int),
        -1000 <= r <= 1000,
{
    sin_milli(a + QUARTER_TURN)
}

} // verus!
