//! A static wall: a cached renderable plus its collision outline, a
//! closed four-sided polygon on the horizontal plane with precomputed
//! edge vectors. Collision resolution slides the mover along the wall:
//! the velocity component along the struck edge's normal is removed.

use vstd::prelude::*;

verus! {

use crate::cache::Cache;
use crate::geometry::{
    cross,
    in_bounds2,
    in_bounds3,
    is_left,
    seg_den,
    seg_s_num,
    seg_t_num,
    spec_cross,
    Vec2,
    Vec3,
};
use crate::instance::{InstanceController, UvRect};
use crate::numeric::{
    cos_milli,
    div_euclid_i64,
    sin_milli,
    spec_cos_milli,
    spec_sin_milli,
};
use vstd::arithmetic::div_mod::{
    lemma_div_is_ordered,
    lemma_div_multiples_vanish,
    lemma_fundamental_div_mod,
    lemma_mod_bound,
};

/// Largest wall center coordinate and extent, in ticks, for which the
/// construction stays within the exact-geometry range.
pub const WALL_LIMIT: i64 = 200000;

/// Largest rotation angle magnitude accepted, milli-degrees.
pub const MAX_WALL_ROTATION: i64 = 0x4000_0000_0000_0000;

/// A wall entity of the world.
pub struct Wall {
    pub instance_controller: Cache<InstanceController>,
    /// The polygon outline: four corners and the first one again.
    pub vertices: [Vec2; 5],
    /// The four directed edges, consecutive corner differences.
    pub edges: [Vec2; 4],
}

impl Wall {
    /// The collision outline is a closed loop of in-range vertices whose
    /// edge vectors match the corner differences.
    pub open spec fn wf(self) -> bool {
        &&& self.vertices@[4] == self.vertices@[0]
        &&& forall|i: int|
            0 <= i < 4 ==> #[trigger] self.edges@[i] == (Vec2 {
                x: (self.vertices@[i + 1].x - self.vertices@[i].x) as i64,
                y: (self.vertices@[i + 1].y - self.vertices@[i].y) as i64,
            })
        &&& forall|i: int| 0 <= i < 5 ==> in_bounds2(#[trigger] self.vertices@[i], 500000)
        &&& forall|i: int| 0 <= i < 4 ==> in_bounds2(#[trigger] self.edges@[i], 1000000)
    }
}

/// x of a local offset `(lx, lz)` rotated by `rotation` milli-degrees
/// around the vertical axis and moved to `position`.
pub open spec fn corner_x(position: Vec3, rotation: int, lx: int, lz: int) -> int {
    (lx * spec_cos_milli(rotation) + lz * spec_sin_milli(rotation)) / 1000 + position.x
}

/// z of the same rotated and moved local offset.
pub open spec fn corner_z(position: Vec3, rotation: int, lx: int, lz: int) -> int {
    (lz * spec_cos_milli(rotation) - lx * spec_sin_milli(rotation)) / 1000 + position.z
}


/// The wall that `Wall::new` builds from `position`, `rotation` and
/// `scale`: the renderable state and the derived collision outline.
pub open spec fn is_wall_of(w: Wall, position: Vec3, rotation: i64, scale: Vec3) -> bool {
    let hw = scale.x as int / 2 + 1000;
    let hd = scale.z as int / 2 + 1000;
    &&& w.wf()
    &&& w.instance_controller.content == (InstanceController {
        scale,
        rotation,
        position,
        uv: UvRect { x: 0i64, y: 0i64, w: 1000i64, h: 1000i64 },
    })
    &&& w.vertices@[0].x == corner_x(position, rotation as int, -hw, -hd)
    &&& w.vertices@[0].y == corner_z(position, rotation as int, -hw, -hd)
    &&& w.vertices@[1].x == corner_x(position, rotation as int, hw, -hd)
    &&& w.vertices@[1].y == corner_z(position, rotation as int, hw, -hd)
    &&& w.vertices@[2].x == corner_x(position, rotation as int, hw, hd)
    &&& w.vertices@[2].y == corner_z(position, rotation as int, hw, hd)
    &&& w.vertices@[3].x == corner_x(position, rotation as int, -hw, hd)
    &&& w.vertices@[3].y == corner_z(position, rotation as int, -hw, hd)
}

/// One corner of the outline: the local offset rotated by the wall's yaw
/// (given through its cosine and sine) and moved to the wall's center.
fn rotated_corner(lx: i64, lz: i64, c: i64, s: i64, position: Vec3) -> (r: Vec2)
    requires
        -101000 <= lx <= 101000,
        -101000 <= lz <= 101000,
        -1000 <= c <= 1000,
        -1000 <= s <= 1000,
        in_bounds3(position, WALL_LIMIT as int),
    ensures
        r.x == (lx * c + lz * s) / 1000 + position.x,
        r.y == (lz * c - lx * s) / 1000 + position.z,
        in_bounds2(r, 500000),
{
    proof {
        assert(-101000000 <= lx * c <= 101000000 && -101000000 <= lz * s <= 101000000 && -101000000
            <= lz * c <= 101000000 && -101000000 <= lx * s <= 101000000) by (nonlinear_arith)
            requires
                -101000 <= lx <= 101000,
                -101000 <= lz <= 101000,
                -1000 <= c <= 1000,
                -1000 <= s <= 1000,
        ;
        lemma_div_multiples_vanish(-202000, 1000);
        lemma_div_multiples_vanish(202000, 1000);
        lemma_div_is_ordered(-202000000, lx * c + lz * s, 1000);
        lemma_div_is_ordered(lx * c + lz * s, 202000000, 1000);
        lemma_div_is_ordered(-202000000, lz * c - lx * s, 1000);
        lemma_div_is_ordered(lz * c - lx * s, 202000000, 1000);
    }
    let x = div_euclid_i64(lx * c + lz * s, 1000) + position.x;
    let y = div_euclid_i64(lz * c - lx * s, 1000) + position.z;
    Vec2 { x, y }
}

impl Wall {
    /// Builds a wall centered at `position`, turned by `rotation`
    /// milli-degrees around the vertical axis, with `scale` its rendered
    /// extents in ticks. The collision outline gets half the x extent
    /// plus a one-unit margin sideways and half the z extent plus the
    /// same margin deep, rotated and translated into place, stored as a
    /// closed five-point loop with its four edge vectors.
    pub fn new(position: Vec3, rotation: i64, scale: Vec3) -> (r: Wall)
        requires
            in_bounds3(position, WALL_LIMIT as int),
            0 <= scale.x <= WALL_LIMIT,
            0 <= scale.z <= WALL_LIMIT,
            -MAX_WALL_ROTATION <= rotation <= MAX_WALL_ROTATION,
        ensures
            r.wf(),
            is_wall_of(r, position, rotation, scale),
            !r.instance_controller.is_cached,
            r.instance_controller.content == (InstanceController {
                scale,
                rotation,
                position,
                uv: UvRect { x: 0i64, y: 0i64, w: 1000i64, h: 1000i64 },
            }),
            ({
                let hw = scale.x as int / 2 + 1000;
                let hd = scale.z as int / 2 + 1000;
                &&& r.vertices@[0].x == corner_x(position, rotation as int, -hw, -hd)
                &&& r.vertices@[0].y == corner_z(position, rotation as int, -hw, -hd)
                &&& r.vertices@[1].x == corner_x(position, rotation as int, hw, -hd)
                &&& r.vertices@[1].y == corner_z(position, rotation as int, hw, -hd)
                &&& r.vertices@[2].x == corner_x(position, rotation as int, hw, hd)
                &&& r.vertices@[2].y == corner_z(position, rotation as int, hw, hd)
                &&& r.vertices@[3].x == corner_x(position, rotation as int, -hw, hd)
                &&& r.vertices@[3].y == corner_z(position, rotation as int, -hw, hd)
            }),
    {
        let c = cos_milli(rotation);
        let s = sin_milli(rotation);
        let hw = div_euclid_i64(scale.x, 2) + 1000;
        let hd = div_euclid_i64(scale.z, 2) + 1000;
        let a = rotated_corner(-hw, -hd, c, s, position);
        let b = rotated_corner(hw, -hd, c, s, position);
        let cc = rotated_corner(hw, hd, c, s, position);
        let d = rotated_corner(-hw, hd, c, s, position);
        let vertices = [a, b, cc, d, a];
        let edges = [b.minus(a), cc.minus(b), d.minus(cc), a.minus(d)];
        Wall {
            instance_controller: Cache::new(
                InstanceController {
                    scale,
                    rotation,
                    position,
                    uv: UvRect { x: 0, y: 0, w: 1000, h: 1000 },
                },
            ),
            vertices,
            edges,
        }
    }

    /// The renderable state of the wall, handed out only when the
    /// renderer has not seen it yet: `None` means nothing changed.
    pub fn get_instance_controller(&mut self) -> (r: Option<InstanceController>)
        ensures
            final(self).vertices == old(self).vertices,
            final(self).edges == old(self).edges,
            final(self).instance_controller.content == old(self).instance_controller.content,
            final(self).instance_controller.is_cached,
            old(self).instance_controller.is_cached ==> r is None,
            !old(self).instance_controller.is_cached ==> r == Some(
                old(self).instance_controller.content,
            ),
    {
        self.instance_controller.cache()
    }
}


/// On which side of edge `i` the point `p` lies: positive means the
/// inner side under the outline's winding.
pub open spec fn edge_side(w: Wall, i: int, p: Vec2) -> int {
    w.edges@[i].x * (p.y - w.vertices@[i].y) - w.edges@[i].y * (p.x - w.vertices@[i].x)
}

/// Whether `p` lies strictly inside the wall's outline: on the inner
/// side of all four edges.
pub open spec fn spec_inside(w: Wall, p: Vec2) -> bool {
    forall|i: int| 0 <= i < 4 ==> #[trigger] edge_side(w, i, p) > 0
}

/// Where the movement segment `p2 -> n2` crosses the segment `v0 -> v1`,
/// if it does: the movement parameter at the crossing, scaled by 1000 and
/// rounded down, so 0 is the movement's start and 1000 its end.
pub open spec fn edge_hit_points(v0: Vec2, v1: Vec2, p2: Vec2, n2: Vec2) -> Option<int> {
    let c = seg_den(v0, v1, p2, n2);
    if c == 0 {
        None
    } else {
        let den = if c > 0 {
            c
        } else {
            -c
        };
        let sn = if c > 0 {
            seg_s_num(v0, v1, p2, n2)
        } else {
            -seg_s_num(v0, v1, p2, n2)
        };
        let tn = if c > 0 {
            seg_t_num(v0, v1, p2, n2)
        } else {
            -seg_t_num(v0, v1, p2, n2)
        };
        if 0 <= sn <= den && 0 <= tn <= den {
            Some((1000 * tn) / den)
        } else {
            None
        }
    }
}

/// Where the movement segment crosses edge `i` of the wall, if it does.
pub open spec fn wall_edge_hit(w: Wall, i: int, p2: Vec2, n2: Vec2) -> Option<int> {
    edge_hit_points(w.vertices@[i], w.vertices@[i + 1], p2, n2)
}

/// The crossing closest to the movement's start among the first `k`
/// edges, as the pair of edge index and scaled movement parameter. A tie
/// keeps the earlier edge.
pub open spec fn best_hit_upto(w: Wall, p2: Vec2, n2: Vec2, k: int) -> Option<(int, int)>
    decreases k,
{
    if k <= 0 {
        None
    } else {
        let prev = best_hit_upto(w, p2, n2, k - 1);
        match wall_edge_hit(w, k - 1, p2, n2) {
            None => prev,
            Some(t) => match prev {
                None => Some((k - 1, t)),
                Some(h) => if t < h.1 {
                    Some((k - 1, t))
                } else {
                    prev
                },
            },
        }
    }
}

/// The velocity with its component along the normal of edge `e` removed:
/// the sliding response. The normal is the edge turned a quarter turn;
/// the projection divides by the normal's squared length, rounding each
/// coordinate down. A degenerate edge leaves the velocity unchanged.
pub open spec fn spec_slide(v: Vec3, e: Vec2) -> (int, int, int) {
    let nx = e.y;
    let ny = -e.x;
    let d = nx * nx + ny * ny;
    if d == 0 {
        (v.x as int, v.y as int, v.z as int)
    } else {
        let q = v.x * nx + v.z * ny;
        (v.x - (q * nx) / d, v.y as int, v.z - (q * ny) / d)
    }
}

/// What [`Wall::check_collision`] returns: the velocity unchanged when
/// the moved position stays outside the outline or the movement crosses
/// no edge, otherwise the velocity slid along the closest crossed edge.
pub open spec fn spec_check_collision(w: Wall, position: Vec3, velocity: Vec3) -> (int, int, int) {
    let p2 = Vec2 { x: position.x, y: position.z };
    let n2 = Vec2 {
        x: (position.x + velocity.x) as i64,
        y: (position.z + velocity.z) as i64,
    };
    if !spec_inside(w, n2) {
        (velocity.x as int, velocity.y as int, velocity.z as int)
    } else {
        match best_hit_upto(w, p2, n2, 4) {
            None => (velocity.x as int, velocity.y as int, velocity.z as int),
            Some(h) => spec_slide(velocity, w.edges@[h.0]),
        }
    }
}

/// The arithmetic heart of the sliding response. With `n = (nx, ny)` the
/// edge normal, `d` its squared length, `q` the velocity's dot product
/// with `n`, and `px`, `pz` the rounded projection with remainders `rx`,
/// `rz`, the adjusted velocity `a = v - p` satisfies:
/// - its component along `n` vanishes up to rounding: `|n . a|` stays
///   strictly below `|nx| + |ny|`, under one tick of normal motion;
/// - its squared planar length grows by at most a bounded rounding term:
///   `500 |a|^2 <= 501 |v|^2 + 501000`.
proof fn lemma_slide_bounds(
    vx: int,
    vz: int,
    nx: int,
    ny: int,
    d: int,
    q: int,
    px: int,
    pz: int,
    rx: int,
    rz: int,
)
    requires
        d == nx * nx + ny * ny,
        d > 0,
        q == vx * nx + vz * ny,
        q * nx == d * px + rx,
        0 <= rx < d,
        q * ny == d * pz + rz,
        0 <= rz < d,
    ensures
        d * (nx * (vx - px) + ny * (vz - pz)) == nx * rx + ny * rz,
        nx * (vx - px) + ny * (vz - pz) < abs_i(nx) + abs_i(ny),
        -(abs_i(nx) + abs_i(ny)) < nx * (vx - px) + ny * (vz - pz),
        500 * ((vx - px) * (vx - px) + (vz - pz) * (vz - pz)) <= 501 * (vx * vx + vz * vz)
            + 501000,
{
    let wx = vx * d - q * nx;
    let wz = vz * d - q * ny;
    let ax = vx - px;
    let az = vz - pz;
    let na = nx * ax + ny * az;
    let axn = abs_i(nx);
    let ayn = abs_i(ny);
    // The exact projection is orthogonal to the normal.
    assert(nx * wx + ny * wz == 0) by (nonlinear_arith)
        requires
            wx == vx * d - q * nx,
            wz == vz * d - q * ny,
            d == nx * nx + ny * ny,
            q == vx * nx + vz * ny,
    ;
    // Scaling the adjusted velocity by `d` exposes the rounding.
    assert(d * ax == wx + rx) by (nonlinear_arith)
        requires
            ax == vx - px,
            wx == vx * d - q * nx,
            q * nx == d * px + rx,
    ;
    assert(d * az == wz + rz) by (nonlinear_arith)
        requires
            az == vz - pz,
            wz == vz * d - q * ny,
            q * ny == d * pz + rz,
    ;
    assert(d * na == nx * rx + ny * rz) by (nonlinear_arith)
        requires
            na == nx * ax + ny * az,
            d * ax == wx + rx,
            d * az == wz + rz,
            nx * wx + ny * wz == 0,
    ;
    // The rounding contribution is below one squared normal length.
    assert(nx * rx <= axn * (d - 1) && nx * rx >= -(axn * (d - 1))) by (nonlinear_arith)
        requires
            axn == if nx >= 0 { nx } else { -nx },
            0 <= rx < d,
    ;
    assert(ny * rz <= ayn * (d - 1) && ny * rz >= -(ayn * (d - 1))) by (nonlinear_arith)
        requires
            ayn == if ny >= 0 { ny } else { -ny },
            0 <= rz < d,
    ;
    assert(axn + ayn >= 1) by (nonlinear_arith)
        requires
            axn == if nx >= 0 { nx } else { -nx },
            ayn == if ny >= 0 { ny } else { -ny },
            nx * nx + ny * ny > 0,
    ;
    assert((axn + ayn) * (d - 1) == axn * (d - 1) + ayn * (d - 1)) by (nonlinear_arith);
    assert(na < axn + ayn && -(axn + ayn) < na) by (nonlinear_arith)
        requires
            d * na <= (axn + ayn) * (d - 1),
            -((axn + ayn) * (d - 1)) <= d * na,
            d >= 1,
            axn + ayn >= 1,
    ;
    // Squared-length growth. The exact slide never grows the velocity;
    // the rounding adds a bounded term, by the inequality
    // `1000 w r <= w^2 + 250000 r^2`.
    let sw = wx * wx + wz * wz;
    let sr = rx * rx + rz * rz;
    assert(wx * wx == (vx * d) * (vx * d) - 2 * ((vx * d) * (q * nx)) + (q * nx) * (q * nx))
        by (nonlinear_arith)
        requires
            wx == vx * d - q * nx,
    ;
    assert(wz * wz == (vz * d) * (vz * d) - 2 * ((vz * d) * (q * ny)) + (q * ny) * (q * ny))
        by (nonlinear_arith)
        requires
            wz == vz * d - q * ny,
    ;
    assert((vx * d) * (vx * d) == (d * d) * (vx * vx) && (vz * d) * (vz * d) == (d * d) * (vz
        * vz)) by (nonlinear_arith);
    assert((vx * d) * (q * nx) == (d * q) * (vx * nx) && (vz * d) * (q * ny) == (d * q) * (vz
        * ny)) by (nonlinear_arith);
    assert((d * q) * (vx * nx) + (d * q) * (vz * ny) == (d * q) * q) by (nonlinear_arith)
        requires
            q == vx * nx + vz * ny,
    ;
    assert((q * nx) * (q * nx) + (q * ny) * (q * ny) == (q * q) * d) by (nonlinear_arith)
        requires
            d == nx * nx + ny * ny,
    ;
    assert((d * d) * (vx * vx) + (d * d) * (vz * vz) == (d * d) * (vx * vx + vz * vz))
        by (nonlinear_arith);
    assert(2 * ((d * q) * q) == 2 * ((q * q) * d)) by (nonlinear_arith);
    assert((q * q) * d >= 0) by (nonlinear_arith)
        requires
            d > 0,
    ;
    assert(sw <= d * d * (vx * vx + vz * vz)) by (nonlinear_arith)
        requires
            sw == (d * d) * (vx * vx + vz * vz) - 2 * ((q * q) * d) + (q * q) * d,
            (q * q) * d >= 0,
    ;
    assert(1000 * (wx * rx) <= wx * wx + 250000 * (rx * rx)) by (nonlinear_arith);
    assert(1000 * (wz * rz) <= wz * wz + 250000 * (rz * rz)) by (nonlinear_arith);
    assert(sr <= 2 * (d * d)) by (nonlinear_arith)
        requires
            sr == rx * rx + rz * rz,
            0 <= rx < d,
            0 <= rz < d,
    ;
    assert(500 * ((d * ax) * (d * ax) + (d * az) * (d * az)) == 500 * sw + 1000 * (wx * rx) + 1000
        * (wz * rz) + 500 * sr) by (nonlinear_arith)
        requires
            d * ax == wx + rx,
            d * az == wz + rz,
            sw == wx * wx + wz * wz,
            sr == rx * rx + rz * rz,
    ;
    assert((d * ax) * (d * ax) + (d * az) * (d * az) == (d * d) * (ax * ax + az * az))
        by (nonlinear_arith);
    assert(500 * ((d * d) * (ax * ax + az * az)) <= 501 * ((d * d) * (vx * vx + vz * vz)) + 501000
        * (d * d)) by (nonlinear_arith)
        requires
            500 * ((d * d) * (ax * ax + az * az)) == 500 * sw + 1000 * (wx * rx) + 1000 * (wz * rz)
                + 500 * sr,
            sw <= d * d * (vx * vx + vz * vz),
            1000 * (wx * rx) <= wx * wx + 250000 * (rx * rx),
            1000 * (wz * rz) <= wz * wz + 250000 * (rz * rz),
            sw == wx * wx + wz * wz,
            sr == rx * rx + rz * rz,
            sr <= 2 * (d * d),
    ;
    assert(500 * (ax * ax + az * az) <= 501 * (vx * vx + vz * vz) + 501000) by (nonlinear_arith)
        requires
            500 * ((d * d) * (ax * ax + az * az)) <= 501 * ((d * d) * (vx * vx + vz * vz)) + 501000
                * (d * d),
            d > 0,
    ;
}

/// The magnitude of an integer.
pub open spec fn abs_i(a: int) -> int {
    if a < 0 {
        -a
    } else {
        a
    }
}


/// Where the movement segment `p2 -> n2` crosses the segment `v0 -> v1`,
/// if it does: exactly [`edge_hit_points`].
fn edge_hit(v0: Vec2, v1: Vec2, p2: Vec2, n2: Vec2) -> (r: Option<i64>)
    requires
        in_bounds2(v0, 500000),
        in_bounds2(v1, 500000),
        in_bounds2(p2, 500000),
        in_bounds2(n2, 500000),
    ensures
        match r {
            Some(t) => edge_hit_points(v0, v1, p2, n2) == Some(t as int) && 0 <= t <= 1000,
            None => edge_hit_points(v0, v1, p2, n2) is None,
        },
{
    let v1d = v1.minus(v0);
    let v2d = n2.minus(p2);
    let c = cross(v1d, v2d);
    if c == 0 {
        return None;
    }
    let s_raw = cross(p2.minus(v0), v2d);
    let t_raw = cross(v1d, v0.minus(p2));
    let (den, sn, tn) = if c > 0 {
        (c, s_raw, t_raw)
    } else {
        (-c, -s_raw, -t_raw)
    };
    if sn < 0 || sn > den || tn < 0 || tn > den {
        return None;
    }
    proof {
        lemma_div_multiples_vanish(1000, den as int);
        lemma_div_is_ordered(0, 1000 * tn, den as int);
        lemma_div_is_ordered(1000 * tn, 1000 * den, den as int);
    }
    Some(div_euclid_i64(1000 * tn, den))
}

/// The velocity slid along edge `e`: exactly [`spec_slide`], with the
/// rounding-bound guarantees of the sliding response.
fn slide(velocity: Vec3, e: Vec2) -> (r: Vec3)
    requires
        in_bounds3(velocity, 250000),
        in_bounds2(e, 1000000),
    ensures
        (r.x as int, r.y as int, r.z as int) == spec_slide(velocity, e),
        r.y == velocity.y,
        velocity.x * velocity.x + velocity.z * velocity.z <= 600000 ==> r.x * r.x + r.z * r.z
            <= velocity.x * velocity.x + velocity.z * velocity.z + 2202,
{
    let nx = e.y;
    let ny = -e.x;
    proof {
        assert(nx * nx + ny * ny <= 2000000000000 && nx * nx >= 0 && ny * ny >= 0)
            by (nonlinear_arith)
            requires
                -1000000 <= nx <= 1000000,
                -1000000 <= ny <= 1000000,
        ;
    }
    let d = nx * nx + ny * ny;
    if d == 0 {
        return velocity;
    }
    proof {
        assert(-250000000000 <= velocity.x * nx <= 250000000000 && -250000000000 <= velocity.z
            * ny <= 250000000000) by (nonlinear_arith)
            requires
                -250000 <= velocity.x <= 250000,
                -250000 <= velocity.z <= 250000,
                -1000000 <= nx <= 1000000,
                -1000000 <= ny <= 1000000,
        ;
    }
    let q = velocity.x * nx + velocity.z * ny;
    proof {
        assert(-500000000000000000 <= q * nx <= 500000000000000000 && -500000000000000000 <= q * ny
            <= 500000000000000000) by (nonlinear_arith)
            requires
                -500000000000 <= q <= 500000000000,
                -1000000 <= nx <= 1000000,
                -1000000 <= ny <= 1000000,
        ;
    }
    let px = div_euclid_i64(q * nx, d);
    let pz = div_euclid_i64(q * ny, d);
    proof {
        lemma_fundamental_div_mod(q * nx as int, d as int);
        lemma_fundamental_div_mod(q * ny as int, d as int);
        lemma_mod_bound(q * nx as int, d as int);
        lemma_mod_bound(q * ny as int, d as int);
        lemma_slide_bounds(
            velocity.x as int,
            velocity.z as int,
            nx as int,
            ny as int,
            d as int,
            q as int,
            px as int,
            pz as int,
            (q * nx) as int % (d as int),
            (q * ny) as int % (d as int),
        );
        if velocity.x * velocity.x + velocity.z * velocity.z <= 600000 {
            let ax = velocity.x - px as int;
            let az = velocity.z - pz as int;
            assert(ax * ax + az * az <= velocity.x * velocity.x + velocity.z * velocity.z + 2202)
                by (nonlinear_arith)
                requires
                    500 * (ax * ax + az * az) <= 501 * (velocity.x * velocity.x + velocity.z
                        * velocity.z) + 501000,
                    velocity.x * velocity.x + velocity.z * velocity.z <= 600000,
            ;
        }
    }
    Vec3 { x: velocity.x - px, y: velocity.y, z: velocity.z - pz }
}

impl Wall {
    /// Resolves the wall against a move from `position` by `velocity`,
    /// on the horizontal plane only. When the moved position would land
    /// inside the wall's outline and the movement crosses one of its
    /// edges, the returned velocity is the input slid along the crossed
    /// edge nearest the start of the move; otherwise the velocity comes
    /// back unchanged. The result is exactly [`spec_check_collision`],
    /// and a velocity of bounded squared planar length stays bounded, so
    /// resolutions can be chained across walls.
    pub fn check_collision(&self, position: Vec3, velocity: Vec3) -> (r: Vec3)
        requires
            self.wf(),
            in_bounds3(position, 200000),
            in_bounds3(velocity, 200000),
        ensures
            (r.x as int, r.y as int, r.z as int) == spec_check_collision(*self, position, velocity),
            r.y == velocity.y,
            velocity.x * velocity.x + velocity.z * velocity.z <= 600000 ==> r.x * r.x + r.z * r.z
                <= velocity.x * velocity.x + velocity.z * velocity.z + 2202,
    {
        let p2 = position.xz();
        let n2 = Vec2 { x: position.x + velocity.x, y: position.z + velocity.z };

        // The wall only matters if the moved position ends up inside it.
        let mut inside = true;
        let mut i: usize = 0;
        while i < 4
            invariant
                self.wf(),
                in_bounds2(p2, 200000),
                in_bounds2(n2, 400000),
                0 <= i <= 4,
                inside == forall|j: int| 0 <= j < i ==> #[trigger] edge_side(*self, j, n2) > 0,
            decreases 4 - i,
        {
            let side_positive = is_left(self.edges[i], n2.minus(self.vertices[i]));
            proof {
                assert(side_positive == (edge_side(*self, i as int, n2) > 0));
            }
            if !side_positive {
                inside = false;
            }
            i = i + 1;
        }
        if !inside {
            return velocity;
        }

        // Find the edge the movement segment crosses nearest its start.
        let mut best: Option<(usize, i64)> = None;
        let mut i: usize = 0;
        while i < 4
            invariant
                self.wf(),
                in_bounds2(p2, 200000),
                in_bounds2(n2, 400000),
                0 <= i <= 4,
                match best {
                    None => best_hit_upto(*self, p2, n2, i as int) is None,
                    Some(h) => best_hit_upto(*self, p2, n2, i as int) == Some(
                        (h.0 as int, h.1 as int),
                    ) && h.0 < i,
                },
            decreases 4 - i,
        {
            match edge_hit(self.vertices[i], self.vertices[i + 1], p2, n2) {
                None => {},
                Some(t) => {
                    match best {
                        None => {
                            best = Some((i, t));
                        },
                        Some(h) => {
                            if t < h.1 {
                                best = Some((i, t));
                            }
                        },
                    }
                },
            }
            i = i + 1;
        }
        match best {
            None => velocity,
            Some(h) => slide(velocity, self.edges[h.0]),
        }
    }
}


/// A best hit names a real crossing: the index is one of the four edges
/// and that edge's hit parameter is the one recorded.
pub proof fn lemma_best_hit_is_hit(w: Wall, p2: Vec2, n2: Vec2, k: int)
    ensures
        best_hit_upto(w, p2, n2, k) matches Some(h) ==> 0 <= h.0 < k && wall_edge_hit(
            w,
            h.0,
            p2,
            n2,
        ) == Some(h.1),
    decreases k,
{
    if k > 0 {
        lemma_best_hit_is_hit(w, p2, n2, k - 1);
    }
}

/// No collision means pass-through: when the moved position stays
/// outside the wall's outline, or the movement crosses no edge, the
/// velocity comes back unchanged.
pub proof fn lemma_no_collision_pass_through(w: Wall, position: Vec3, velocity: Vec3)
    ensures
        !spec_inside(
            w,
            Vec2 { x: (position.x + velocity.x) as i64, y: (position.z + velocity.z) as i64 },
        ) ==> spec_check_collision(w, position, velocity) == (
            velocity.x as int,
            velocity.y as int,
            velocity.z as int,
        ),
        best_hit_upto(
            w,
            Vec2 { x: position.x, y: position.z },
            Vec2 { x: (position.x + velocity.x) as i64, y: (position.z + velocity.z) as i64 },
            4,
        ) is None ==> spec_check_collision(w, position, velocity) == (
            velocity.x as int,
            velocity.y as int,
            velocity.z as int,
        ),
{
}

/// A resolved collision removes the velocity component along the struck
/// edge's normal: what remains of it is strictly below one tick per
/// normal length, the rounding granularity of the fixed-point slide.
pub proof fn lemma_collision_cancels_normal_component(
    w: Wall,
    position: Vec3,
    velocity: Vec3,
    i: int,
    t: int,
)
    requires
        w.wf(),
        spec_inside(
            w,
            Vec2 { x: (position.x + velocity.x) as i64, y: (position.z + velocity.z) as i64 },
        ),
        best_hit_upto(
            w,
            Vec2 { x: position.x, y: position.z },
            Vec2 { x: (position.x + velocity.x) as i64, y: (position.z + velocity.z) as i64 },
            4,
        ) == Some((i, t)),
    ensures
        0 <= i < 4,
        ({
            let e = w.edges@[i];
            let r = spec_check_collision(w, position, velocity);
            let na = e.y * r.0 + (-e.x) * r.2;
            -(abs_i(e.y as int) + abs_i(e.x as int)) < na < abs_i(e.y as int) + abs_i(e.x as int)
        }),
{
    let p2 = Vec2 { x: position.x, y: position.z };
    let n2 = Vec2 { x: (position.x + velocity.x) as i64, y: (position.z + velocity.z) as i64 };
    lemma_best_hit_is_hit(w, p2, n2, 4);
    let v0 = w.vertices@[i];
    let v1 = w.vertices@[i + 1];
    let e = w.edges@[i];
    // The crossed edge is not degenerate: a crossing needs a nonzero
    // direction cross product.
    let c = seg_den(v0, v1, p2, n2);
    assert(c != 0);
    if v1.x - v0.x == 0 && v1.y - v0.y == 0 {
        assert(c == 0) by (nonlinear_arith)
            requires
                c == (v1.x - v0.x) * (n2.y - p2.y) - (v1.y - v0.y) * (n2.x - p2.x),
                v1.x - v0.x == 0,
                v1.y - v0.y == 0,
        ;
    }
    assert(e.x != 0 || e.y != 0);
    let nx = e.y as int;
    let ny = -e.x as int;
    let d = nx * nx + ny * ny;
    assert(d > 0) by (nonlinear_arith)
        requires
            d == nx * nx + ny * ny,
            nx != 0 || ny != 0,
    ;
    let q = velocity.x * nx + velocity.z * ny;
    let px = (q * nx) / d;
    let pz = (q * ny) / d;
    vstd::arithmetic::div_mod::lemma_fundamental_div_mod(q * nx, d);
    vstd::arithmetic::div_mod::lemma_fundamental_div_mod(q * ny, d);
    vstd::arithmetic::div_mod::lemma_mod_bound(q * nx, d);
    vstd::arithmetic::div_mod::lemma_mod_bound(q * ny, d);
    lemma_slide_bounds(
        velocity.x as int,
        velocity.z as int,
        nx,
        ny,
        d,
        q,
        px,
        pz,
        (q * nx) % d,
        (q * ny) % d,
    );
}

} // verus!
