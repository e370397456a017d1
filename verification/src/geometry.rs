//! Plane and space vectors in fixed-point ticks, the 2D cross product and
//! left-turn test, and exact segment intersection.
//!
//! All geometry stays exact as long as every coordinate lies within
//! [`COORD_LIMIT`]: the intersection arithmetic then fits in `i64` with no
//! rounding other than the final division back to ticks.

use vstd::prelude::*;

verus! {

use crate::numeric::div_euclid_i64;
use vstd::arithmetic::div_mod::lemma_div_is_ordered;

/// Largest coordinate magnitude, in ticks, for which the geometry in this
/// module is overflow-free.
pub const COORD_LIMIT: i64 = 500000;

/// A point or vector of the horizontal (x-z) plane, in ticks.
#[derive(Clone, Copy, PartialEq, Eq, Structural, Debug)]
pub struct Vec2 {
    pub x: i64,
    pub y: i64,
}

/// A point or vector of world space, in ticks.
#[derive(Clone, Copy, PartialEq, Eq, Structural, Debug)]
pub struct Vec3 {
    pub x: i64,
    pub y: i64,
    pub z: i64,
}

/// Both coordinates of `v` lie within `b` in magnitude.
pub open spec fn in_bounds2(v: Vec2, b: int) -> bool {
    -b <= v.x <= b && -b <= v.y <= b
}

/// All three coordinates of `v` lie within `b` in magnitude.
pub open spec fn in_bounds3(v: Vec3, b: int) -> bool {
    -b <= v.x <= b && -b <= v.y <= b && -b <= v.z <= b
}

/// The 2D cross product over unbounded integers.
pub open spec fn spec_cross(v1: Vec2, v2: Vec2) -> int {
    v1.x * v2.y - v1.y * v2.x
}

impl Vec2 {
    pub fn minus(self, o: Vec2) -> (r: Vec2)
        requires
            in_bounds2(self, 4 * COORD_LIMIT),
            in_bounds2(o, 4 * COORD_LIMIT),
        ensures
            r.x == self.x - o.x,
            r.y == self.y - o.y,
    {
        Vec2 { x: self.x - o.x, y: self.y - o.y }
    }
}

impl Vec3 {
    /// The horizontal components, as the plane pair (x, z).
    pub fn xz(self) -> (r: Vec2)
        ensures
            r.x == self.x,
            r.y == self.z,
    {
        Vec2 { x: self.x, y: self.z }
    }
}

/// The 2D cross product `v1.x * v2.y - v1.y * v2.x`.
pub fn cross(v1: Vec2, v2: Vec2) -> (r: i64)
    requires
        in_bounds2(v1, 2 * COORD_LIMIT),
        in_bounds2(v2, 2 * COORD_LIMIT),
    ensures
        r == spec_cross(v1, v2),
        -2000000000000 <= r <= 2000000000000,
{
    proof {
        assert(-1000000000000 <= v1.x * v2.y <= 1000000000000) by (nonlinear_arith)
            requires
                -1000000 <= v1.x <= 1000000,
                -1000000 <= v2.y <= 1000000,
        ;
        assert(-1000000000000 <= v1.y * v2.x <= 1000000000000) by (nonlinear_arith)
            requires
                -1000000 <= v1.y <= 1000000,
                -1000000 <= v2.x <= 1000000,
        ;
    }
    v1.x * v2.y - v1.y * v2.x
}

/// Whether `v2` points to the left of `v1`, i.e. the cross product is
/// strictly positive. With a consistent polygon winding this tests the
/// inner half-plane of an edge.
pub fn is_left(v1: Vec2, v2: Vec2) -> (r: bool)
    requires
        in_bounds2(v1, 2 * COORD_LIMIT),
        in_bounds2(v2, 2 * COORD_LIMIT),
    ensures
        r == (spec_cross(v1, v2) > 0),
{
    cross(v1, v2) > 0
}

/// Denominator of the parametric intersection of segments `p11-p12` and
/// `p21-p22`: the cross product of their direction vectors. Zero exactly
/// when the segments are parallel.
pub open spec fn seg_den(p11: Vec2, p12: Vec2, p21: Vec2, p22: Vec2) -> int {
    (p12.x - p11.x) * (p22.y - p21.y) - (p12.y - p11.y) * (p22.x - p21.x)
}

/// Numerator of the parameter along `p11-p12` at the intersection.
pub open spec fn seg_s_num(p11: Vec2, p12: Vec2, p21: Vec2, p22: Vec2) -> int {
    (p21.x - p11.x) * (p22.y - p21.y) - (p21.y - p11.y) * (p22.x - p21.x)
}

/// Numerator of the parameter along `p21-p22` at the intersection.
pub open spec fn seg_t_num(p11: Vec2, p12: Vec2, p21: Vec2, p22: Vec2) -> int {
    (p12.x - p11.x) * (p11.y - p21.y) - (p12.y - p11.y) * (p11.x - p21.x)
}

/// The intersection of the two closed segments, if any, rounded to ticks.
///
/// `None` when the segments are parallel (the denominator is zero) or when
/// either parameter falls outside [0, 1]. Otherwise the exact rational
/// point `p11 + s * (p12 - p11)`, each coordinate rounded by Euclidean
/// division; the result is reported over unbounded integers.
pub open spec fn spec_segment_intersection(p11: Vec2, p12: Vec2, p21: Vec2, p22: Vec2) -> Option<
    (int, int),
> {
    let c = seg_den(p11, p12, p21, p22);
    if c == 0 {
        None
    } else {
        let den = if c > 0 {
            c
        } else {
            -c
        };
        let sn = if c > 0 {
            seg_s_num(p11, p12, p21, p22)
        } else {
            -seg_s_num(p11, p12, p21, p22)
        };
        let tn = if c > 0 {
            seg_t_num(p11, p12, p21, p22)
        } else {
            -seg_t_num(p11, p12, p21, p22)
        };
        if 0 <= sn <= den && 0 <= tn <= den {
            Some(
                (
                    (p11.x * den + sn * (p12.x - p11.x)) / den,
                    (p11.y * den + sn * (p12.y - p11.y)) / den,
                ),
            )
        } else {
            None
        }
    }
}

/// Bound on an intersection numerator `p * den + sn * v`: since
/// `0 <= sn <= den`, the rational point stays in the hull of the segment,
/// so the numerator stays within `den * COORD_LIMIT`.
proof fn lemma_seg_point_bounds(p: int, v: int, sn: int, den: int)
    requires
        0 < den,
        0 <= sn <= den,
        -500000 <= p <= 500000,
        -500000 <= p + v <= 500000,
    ensures
        -500000 * den <= p * den + sn * v <= 500000 * den,
        -500000 <= (p * den + sn * v) / den <= 500000,
{
    assert(-500000 * den <= p * den + sn * v <= 500000 * den) by (nonlinear_arith)
        requires
            0 < den,
            0 <= sn <= den,
            -500000 <= p <= 500000,
            -500000 <= p + v <= 500000,
    ;
    lemma_div_is_ordered(-500000 * den, p * den + sn * v, den);
    lemma_div_is_ordered(p * den + sn * v, 500000 * den, den);
    vstd::arithmetic::div_mod::lemma_div_multiples_vanish(-500000, den);
    vstd::arithmetic::div_mod::lemma_div_multiples_vanish(500000, den);
}

/// The intersection of segments `p11-p12` and `p21-p22`, rounded to ticks:
/// exactly [`spec_segment_intersection`].
pub fn segment_intersection(p11: Vec2, p12: Vec2, p21: Vec2, p22: Vec2) -> (r: Option<Vec2>)
    requires
        in_bounds2(p11, COORD_LIMIT as int),
        in_bounds2(p12, COORD_LIMIT as int),
        in_bounds2(p21, COORD_LIMIT as int),
        in_bounds2(p22, COORD_LIMIT as int),
    ensures
        match r {
            Some(p) => spec_segment_intersection(p11, p12, p21, p22) == Some(
                (p.x as int, p.y as int),
            ) && in_bounds2(p, COORD_LIMIT as int),
            None => spec_segment_intersection(p11, p12, p21, p22) is None,
        },
{
    let v1 = p12.minus(p11);
    let v2 = p22.minus(p21);
    let c = cross(v1, v2);
    if c == 0 {
        return None;
    }
    let s_raw = cross(p21.minus(p11), v2);
    let t_raw = cross(v1, p11.minus(p21));
    let (den, sn, tn) = if c > 0 {
        (c, s_raw, t_raw)
    } else {
        (-c, -s_raw, -t_raw)
    };
    if sn < 0 || sn > den || tn < 0 || tn > den {
        return None;
    }
    proof {
        lemma_seg_point_bounds(p11.x as int, v1.x as int, sn as int, den as int);
        lemma_seg_point_bounds(p11.y as int, v1.y as int, sn as int, den as int);
        assert(p11.x * den + sn * v1.x <= 3000000000000000000) by (nonlinear_arith)
            requires
                -500000 <= p11.x <= 500000,
                -1000000 <= v1.x <= 1000000,
                0 < den <= 2000000000000,
                0 <= sn <= den,
        ;
        assert(p11.x * den + sn * v1.x >= -3000000000000000000) by (nonlinear_arith)
            requires
                -500000 <= p11.x <= 500000,
                -1000000 <= v1.x <= 1000000,
                0 < den <= 2000000000000,
                0 <= sn <= den,
        ;
        assert(p11.y * den + sn * v1.y <= 3000000000000000000) by (nonlinear_arith)
            requires
                -500000 <= p11.y <= 500000,
                -1000000 <= v1.y <= 1000000,
                0 < den <= 2000000000000,
                0 <= sn <= den,
        ;
        assert(p11.y * den + sn * v1.y >= -3000000000000000000) by (nonlinear_arith)
            requires
                -500000 <= p11.y <= 500000,
                -1000000 <= v1.y <= 1000000,
                0 < den <= 2000000000000,
                0 <= sn <= den,
        ;
    }
    proof {
        assert(-1000000000000000000 <= p11.x * den <= 1000000000000000000) by (nonlinear_arith)
            requires
                -500000 <= p11.x <= 500000,
                0 < den <= 2000000000000,
        ;
        assert(-2000000000000000000 <= sn * v1.x <= 2000000000000000000) by (nonlinear_arith)
            requires
                0 <= sn <= 2000000000000,
                -1000000 <= v1.x <= 1000000,
        ;
        assert(-1000000000000000000 <= p11.y * den <= 1000000000000000000) by (nonlinear_arith)
            requires
                -500000 <= p11.y <= 500000,
                0 < den <= 2000000000000,
        ;
        assert(-2000000000000000000 <= sn * v1.y <= 2000000000000000000) by (nonlinear_arith)
            requires
                0 <= sn <= 2000000000000,
                -1000000 <= v1.y <= 1000000,
        ;
    }
    let x = div_euclid_i64(p11.x * den + sn * v1.x, den);
    let y = div_euclid_i64(p11.y * den + sn * v1.y, den);
    Some(Vec2 { x, y })
}

/// The intersection point numerators computed from either segment agree.
/// With `g` the offset between the two segment origins and `u`, `w` the
/// two directions, moving the offset across the equation reduces the
/// agreement to these two polynomial identities.
proof fn lemma_seg_num_identity(gx: int, gy: int, ux: int, uy: int, wx: int, wy: int)
    ensures
        gx * (ux * wy - uy * wx) == (gx * wy - gy * wx) * ux - (uy * gx - ux * gy) * wx,
        gy * (ux * wy - uy * wx) == (gx * wy - gy * wx) * uy - (uy * gx - ux * gy) * wy,
{
    assert(gx * (ux * wy - uy * wx) == (gx * wy - gy * wx) * ux - (uy * gx - ux * gy) * wx)
        by (nonlinear_arith);
    assert(gy * (ux * wy - uy * wx) == (gx * wy - gy * wx) * uy - (uy * gx - ux * gy) * wy)
        by (nonlinear_arith);
}

/// Segment intersection does not depend on which segment comes first:
/// swapping the two segments yields the same outcome and the same point.
pub proof fn lemma_segment_intersection_symmetric(a: Vec2, b: Vec2, c: Vec2, d: Vec2)
    ensures
        spec_segment_intersection(a, b, c, d) == spec_segment_intersection(c, d, a, b),
{
    let ux = b.x - a.x;
    let uy = b.y - a.y;
    let wx = d.x - c.x;
    let wy = d.y - c.y;
    let gx = c.x - a.x;
    let gy = c.y - a.y;
    let c1 = seg_den(a, b, c, d);
    let s1 = seg_s_num(a, b, c, d);
    let t1 = seg_t_num(a, b, c, d);
    let c2 = seg_den(c, d, a, b);
    let s2 = seg_s_num(c, d, a, b);
    let t2 = seg_t_num(c, d, a, b);
    assert(c1 == ux * wy - uy * wx);
    assert(s1 == gx * wy - gy * wx);
    assert(t1 == uy * gx - ux * gy) by (nonlinear_arith)
        requires
            t1 == ux * (a.y - c.y) - uy * (a.x - c.x),
            gx == c.x - a.x,
            gy == c.y - a.y,
    ;
    assert(c2 == -c1) by (nonlinear_arith)
        requires
            c1 == ux * wy - uy * wx,
            c2 == wx * uy - wy * ux,
    ;
    assert(s2 == -t1) by (nonlinear_arith)
        requires
            t1 == uy * gx - ux * gy,
            s2 == (a.x - c.x) * uy - (a.y - c.y) * ux,
            gx == c.x - a.x,
            gy == c.y - a.y,
    ;
    assert(t2 == -s1) by (nonlinear_arith)
        requires
            s1 == gx * wy - gy * wx,
            t2 == wx * (c.y - a.y) - wy * (c.x - a.x),
            gx == c.x - a.x,
            gy == c.y - a.y,
    ;
    if c1 != 0 {
        // Sign-normalised denominator and parameter numerators: the
        // swapped call sees the same denominator and the two parameters
        // exchanged.
        let den = if c1 > 0 { c1 } else { -c1 };
        let sn1 = if c1 > 0 { s1 } else { -s1 };
        let tn1 = if c1 > 0 { t1 } else { -t1 };
        assert((if c2 > 0 { c2 } else { -c2 }) == den);
        assert((if c2 > 0 { s2 } else { -s2 }) == tn1);
        assert((if c2 > 0 { t2 } else { -t2 }) == sn1);
        if 0 <= sn1 <= den && 0 <= tn1 <= den {
            lemma_seg_num_identity(gx, gy, ux, uy, wx, wy);
            assert(gx * c1 == s1 * ux - t1 * wx) by (nonlinear_arith)
                requires
                    gx * (ux * wy - uy * wx) == (gx * wy - gy * wx) * ux - (uy * gx - ux * gy) * wx,
                    c1 == ux * wy - uy * wx,
                    s1 == gx * wy - gy * wx,
                    t1 == uy * gx - ux * gy,
            ;
            assert(gy * c1 == s1 * uy - t1 * wy) by (nonlinear_arith)
                requires
                    gy * (ux * wy - uy * wx) == (gx * wy - gy * wx) * uy - (uy * gx - ux * gy) * wy,
                    c1 == ux * wy - uy * wx,
                    s1 == gx * wy - gy * wx,
                    t1 == uy * gx - ux * gy,
            ;
            // Transport through the sign normalisation and move the offset
            // `g` to the other side.
            assert(a.x * den + sn1 * ux == c.x * den + tn1 * wx) by (nonlinear_arith)
                requires
                    gx * c1 == s1 * ux - t1 * wx,
                    gx == c.x - a.x,
                    c1 != 0,
                    den == if c1 > 0 { c1 } else { -c1 },
                    sn1 == if c1 > 0 { s1 } else { -s1 },
                    tn1 == if c1 > 0 { t1 } else { -t1 },
            ;
            assert(a.y * den + sn1 * uy == c.y * den + tn1 * wy) by (nonlinear_arith)
                requires
                    gy * c1 == s1 * uy - t1 * wy,
                    gy == c.y - a.y,
                    c1 != 0,
                    den == if c1 > 0 { c1 } else { -c1 },
                    sn1 == if c1 > 0 { s1 } else { -s1 },
                    tn1 == if c1 > 0 { t1 } else { -t1 },
            ;
            assert(spec_segment_intersection(a, b, c, d) == spec_segment_intersection(c, d, a, b));
        }
    }
}

} // verus!
