//! First-person camera state: position, yaw and pitch in milli-degrees,
//! field of view and viewport size. The pitch is clamped to a quarter
//! turn either way; the yaw wraps around the full turn.

use vstd::prelude::*;

verus! {

use crate::geometry::{in_bounds3, Vec3};
use crate::numeric::{
    clamp_i64,
    cos_milli,
    div_euclid_i64,
    rem_euclid_i64,
    sin_milli,
    spec_clamp,
    spec_cos_milli,
    spec_sin_milli,
    FULL_TURN,
    QUARTER_TURN,
};

/// Largest rotation delta accepted per call, in milli-degrees.
pub const MAX_ROTATE_DELTA: i64 = 0x4000_0000_0000_0000;

#[derive(Clone, Copy, PartialEq, Eq, Structural, Debug)]
pub struct CameraController {
    /// Field of view, milli-degrees.
    pub pov: i64,
    /// Viewport width, in ticks of a pixel.
    pub width: i64,
    /// Viewport height, in ticks of a pixel.
    pub height: i64,
    /// Eye position, ticks.
    pub position: Vec3,
    /// Rotation around the vertical axis, milli-degrees, in a full turn.
    pub yaw: i64,
    /// Rotation around the sideways axis, milli-degrees, clamped to a
    /// quarter turn either way.
    pub pitch: i64,
}

impl CameraController {
    /// The camera's orientation invariant: the yaw is reduced to one full
    /// turn and the pitch never leaves the vertical quarter turns.
    pub open spec fn wf(self) -> bool {
        &&& 0 <= self.yaw < FULL_TURN
        &&& -QUARTER_TURN <= self.pitch <= QUARTER_TURN
        &&& self.width >= 1
        &&& self.height >= 1
    }
}

impl Default for CameraController {
    /// A camera at the origin looking along positive z with a 45 degree
    /// field of view on a unit viewport.
    fn default() -> (r: Self)
        ensures
            r == (CameraController {
                pov: 45000i64,
                width: 1i64,
                height: 1i64,
                position: Vec3 { x: 0i64, y: 0i64, z: 0i64 },
                yaw: 0i64,
                pitch: 0i64,
            }),
            r.wf(),
    {
        CameraController {
            pov: 45000,
            width: 1,
            height: 1,
            position: Vec3 { x: 0, y: 0, z: 0 },
            yaw: 0,
            pitch: 0,
        }
    }
}

impl CameraController {
    /// Turns the camera by `y` milli-degrees around the vertical axis and
    /// `x` milli-degrees around the sideways axis. The yaw wraps; the
    /// pitch is clamped to a quarter turn either way, however large the
    /// accumulated input.
    pub fn rotate(&mut self, y: i64, x: i64)
        requires
            old(self).wf(),
            -MAX_ROTATE_DELTA <= y <= MAX_ROTATE_DELTA,
            -MAX_ROTATE_DELTA <= x <= MAX_ROTATE_DELTA,
        ensures
            final(self).yaw == (old(self).yaw + y) % (FULL_TURN as int),
            final(self).pitch == spec_clamp(old(self).pitch + x, -QUARTER_TURN as int, QUARTER_TURN as int),
            final(self).wf(),
            final(self).position == old(self).position,
            final(self).pov == old(self).pov,
            final(self).width == old(self).width,
            final(self).height == old(self).height,
    {
        self.yaw = rem_euclid_i64(self.yaw + y, FULL_TURN);
        self.pitch = clamp_i64(self.pitch + x, -QUARTER_TURN, QUARTER_TURN);
        proof {
            vstd::arithmetic::div_mod::lemma_mod_bound(old(self).yaw + y, FULL_TURN as int);
        }
    }

    /// Rotates `v` by the camera's yaw only, keeping it on the horizontal
    /// plane: how a local movement intent becomes a world direction that
    /// ignores the look pitch.
    pub fn align_to_direction(&self, v: Vec3) -> (r: Vec3)
        requires
            self.wf(),
            in_bounds3(v, 1000000),
        ensures
            r.x == (v.x * spec_cos_milli(self.yaw as int) + v.z * spec_sin_milli(self.yaw as int))
                / 1000,
            r.y == v.y,
            r.z == (v.z * spec_cos_milli(self.yaw as int) - v.x * spec_sin_milli(self.yaw as int))
                / 1000,
    {
        let c = cos_milli(self.yaw);
        let s = sin_milli(self.yaw);
        proof {
            lemma_scaled_products_bounded(v.x as int, v.z as int, c as int, s as int);
        }
        let x = div_euclid_i64(v.x * c + v.z * s, 1000);
        let z = div_euclid_i64(v.z * c - v.x * s, 1000);
        Vec3 { x, y: v.y, z }
    }

    /// The direction the camera looks along, as a vector of up to 1000
    /// ticks per component: the local forward axis rotated by pitch, then
    /// by yaw.
    pub fn forward_direction(&self) -> (r: Vec3)
        requires
            self.wf(),
        ensures
            r.x == (spec_cos_milli(self.pitch as int) * spec_sin_milli(self.yaw as int)) / 1000,
            r.y == -spec_sin_milli(self.pitch as int),
            r.z == (spec_cos_milli(self.pitch as int) * spec_cos_milli(self.yaw as int)) / 1000,
            in_bounds3(r, 1000),
    {
        let cp = cos_milli(self.pitch);
        let sp = sin_milli(self.pitch);
        let cy = cos_milli(self.yaw);
        let sy = sin_milli(self.yaw);
        proof {
            assert(-1000000 <= cp as int * sy as int <= 1000000 && -1000000 <= cp as int * cy as int
                <= 1000000) by (nonlinear_arith)
                requires
                    -1000 <= cp <= 1000,
                    -1000 <= sy <= 1000,
                    -1000 <= cy <= 1000,
            ;
            vstd::arithmetic::div_mod::lemma_div_multiples_vanish(-1000, 1000);
            vstd::arithmetic::div_mod::lemma_div_multiples_vanish(1000, 1000);
            vstd::arithmetic::div_mod::lemma_div_is_ordered(-1000000, cp as int * sy as int, 1000);
            vstd::arithmetic::div_mod::lemma_div_is_ordered(cp as int * sy as int, 1000000, 1000);
            vstd::arithmetic::div_mod::lemma_div_is_ordered(-1000000, cp as int * cy as int, 1000);
            vstd::arithmetic::div_mod::lemma_div_is_ordered(cp as int * cy as int, 1000000, 1000);
        }
        let x = div_euclid_i64(cp * sy, 1000);
        let z = div_euclid_i64(cp * cy, 1000);
        Vec3 { x, y: -sp, z }
    }
}

/// Products of coordinates within a million ticks with sine or cosine
/// values stay comfortably inside `i64`.
proof fn lemma_scaled_products_bounded(a: int, b: int, c: int, s: int)
    requires
        -1000000 <= a <= 1000000,
        -1000000 <= b <= 1000000,
        -1000 <= c <= 1000,
        -1000 <= s <= 1000,
    ensures
        -1000000000 <= a * c <= 1000000000,
        -1000000000 <= a * s <= 1000000000,
        -1000000000 <= b * c <= 1000000000,
        -1000000000 <= b * s <= 1000000000,
{
    assert(-1000000000 <= a * c <= 1000000000 && -1000000000 <= a * s <= 1000000000 && -1000000000
        <= b * c <= 1000000000 && -1000000000 <= b * s <= 1000000000) by (nonlinear_arith)
        requires
            -1000000 <= a <= 1000000,
            -1000000 <= b <= 1000000,
            -1000 <= c <= 1000,
            -1000 <= s <= 1000,
    ;
}

} // verus!
