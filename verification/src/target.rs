//! A shootable target: a small sphere with an optional scripted motion,
//! a pure function of the frame counter. A shot is a ray test: the
//! target is hit when the line through the camera comes within the hit
//! radius of its center.

use vstd::prelude::*;

verus! {

use crate::geometry::{in_bounds3, Vec3};
use crate::instance::{InstanceController, UvRect};
use crate::numeric::{sin_milli, spec_sin_milli};

/// Distance from a target's center within which a ray counts as a hit,
/// in ticks.
pub const HIT_RADIUS: i64 = 200;

/// A target's scripted motion, advanced once per frame.
#[derive(Clone, Copy, PartialEq, Eq, Structural, Debug)]
pub enum Motion {
    /// The target stays where it was put.
    Stationary,
    /// The height follows a sine of the frame count in degrees:
    /// `y = amplitude * sin(count deg) + base`.
    SwayY { amplitude: i64, base: i64 },
    /// The depth follows the same sine: `z = amplitude * sin(count deg) + base`.
    SwayZ { amplitude: i64, base: i64 },
    /// Every `slowdown` frames the phase advances one step; the target
    /// weaves on a fixed-depth plane:
    /// `x = sin(phase * x_step)`, `y = sin(phase * y_step) + y_base`.
    Weave { x_step: i64, y_step: i64, y_base: i64, z: i64, slowdown: u32 },
}

impl Motion {
    /// Parameter bounds under which a motion keeps the target inside the
    /// exact-geometry coordinate range.
    pub open spec fn wf(self) -> bool {
        match self {
            Motion::Stationary => true,
            Motion::SwayY { amplitude, base } => -200000 <= amplitude <= 200000 && -250000 <= base
                <= 250000,
            Motion::SwayZ { amplitude, base } => -200000 <= amplitude <= 200000 && -250000 <= base
                <= 250000,
            Motion::Weave { x_step, y_step, y_base, z, slowdown } => -100000 <= x_step <= 100000
                && -100000 <= y_step <= 100000 && -250000 <= y_base <= 250000 && -500000 <= z
                <= 500000 && slowdown >= 1,
        }
    }
}

/// Where a motion puts the target on frame `count`, starting from `p`.
pub open spec fn spec_motion_position(m: Motion, p: Vec3, count: u32) -> (int, int, int) {
    match m {
        Motion::Stationary => (p.x as int, p.y as int, p.z as int),
        Motion::SwayY { amplitude, base } => (
            p.x as int,
            (amplitude * spec_sin_milli(count * 1000)) / 1000 + base,
            p.z as int,
        ),
        Motion::SwayZ { amplitude, base } => (
            p.x as int,
            p.y as int,
            (amplitude * spec_sin_milli(count * 1000)) / 1000 + base,
        ),
        Motion::Weave { x_step, y_step, y_base, z, slowdown } => {
            let phase = count as int / slowdown as int;
            (
                spec_sin_milli(phase * x_step),
                spec_sin_milli(phase * y_step) + y_base,
                z as int,
            )
        },
    }
}

/// Whether the infinite line `origin + t * direction` passes within
/// [`HIT_RADIUS`] of `target`: the squared vector rejection of
/// `origin - target` from `direction`, compared against the squared
/// radius, all scaled by the direction's squared length. A zero
/// direction degenerates to a plain distance test around `origin`.
pub open spec fn spec_shot_hits(target: Vec3, origin: Vec3, direction: Vec3) -> bool {
    let rx = origin.x - target.x;
    let ry = origin.y - target.y;
    let rz = origin.z - target.z;
    let rr = rx * rx + ry * ry + rz * rz;
    let dd = direction.x * direction.x + direction.y * direction.y + direction.z * direction.z;
    let rd = rx * direction.x + ry * direction.y + rz * direction.z;
    if dd == 0 {
        rr <= HIT_RADIUS * HIT_RADIUS
    } else {
        rr * dd - rd * rd <= HIT_RADIUS * HIT_RADIUS * dd
    }
}

/// A target entity of the world.
#[derive(Clone, Copy, PartialEq, Eq, Structural, Debug)]
pub struct Target {
    pub instance_controller: InstanceController,
    pub motion: Motion,
    pub count: u32,
}

impl Target {
    /// The target stays in the exact-geometry range and its motion keeps
    /// it there.
    pub open spec fn wf(self) -> bool {
        &&& in_bounds3(self.instance_controller.position, 500000)
        &&& self.motion.wf()
    }

    /// A target at `position` with the given scripted motion and a
    /// fifth-of-a-unit scale.
    pub fn new(position: Vec3, motion: Motion) -> (r: Target)
        requires
            in_bounds3(position, 500000),
            motion.wf(),
        ensures
            r.instance_controller == (InstanceController {
                scale: Vec3 { x: 200i64, y: 200i64, z: 200i64 },
                rotation: 0i64,
                position,
                uv: UvRect { x: 0i64, y: 0i64, w: 1000i64, h: 1000i64 },
            }),
            r.motion == motion,
            r.count == 0,
            r.wf(),
    {
        Target {
            instance_controller: InstanceController {
                scale: Vec3 { x: 200, y: 200, z: 200 },
                rotation: 0,
                position,
                uv: UvRect { x: 0, y: 0, w: 1000, h: 1000 },
            },
            motion,
            count: 0,
        }
    }

    /// The target's renderable state. Targets can move every frame, so
    /// the state is handed out unconditionally.
    pub fn get_instance_controller(&mut self) -> (r: InstanceController)
        ensures
            *final(self) == *old(self),
            r == old(self).instance_controller,
    {
        self.instance_controller
    }

    /// Advances the scripted motion one frame: the position becomes the
    /// motion's value at the current count, then the count grows by one
    /// (stopping at the counter's ceiling).
    pub fn update(&mut self)
        requires
            old(self).wf(),
        ensures
            ({
                let (x, y, z) = spec_motion_position(
                    old(self).motion,
                    old(self).instance_controller.position,
                    old(self).count,
                );
                final(self).instance_controller.position == (Vec3 {
                    x: x as i64,
                    y: y as i64,
                    z: z as i64,
                })
            }),
            final(self).count == if old(self).count == u32::MAX {
                u32::MAX
            } else {
                (old(self).count + 1) as u32
            },
            final(self).motion == old(self).motion,
            final(self).instance_controller.scale == old(self).instance_controller.scale,
            final(self).instance_controller.rotation == old(self).instance_controller.rotation,
            final(self).instance_controller.uv == old(self).instance_controller.uv,
            final(self).wf(),
    {
        let p = self.instance_controller.position;
        match self.motion {
            Motion::Stationary => {},
            Motion::SwayY { amplitude, base } => {
                let s = sin_milli(self.count as i64 * 1000);
                proof {
                    lemma_sway_bounds(amplitude as int, s as int);
                }
                self.instance_controller.position = Vec3 {
                    x: p.x,
                    y: crate::numeric::div_euclid_i64(amplitude * s, 1000) + base,
                    z: p.z,
                };
            },
            Motion::SwayZ { amplitude, base } => {
                let s = sin_milli(self.count as i64 * 1000);
                proof {
                    lemma_sway_bounds(amplitude as int, s as int);
                }
                self.instance_controller.position = Vec3 {
                    x: p.x,
                    y: p.y,
                    z: crate::numeric::div_euclid_i64(amplitude * s, 1000) + base,
                };
            },
            Motion::Weave { x_step, y_step, y_base, z, slowdown } => {
                let phase = (self.count / slowdown) as i64;
                proof {
                    assert(-430000000000000 <= phase * x_step <= 430000000000000 && -430000000000000
                        <= phase * y_step <= 430000000000000) by (nonlinear_arith)
                        requires
                            0 <= phase <= 4294967295,
                            -100000 <= x_step <= 100000,
                            -100000 <= y_step <= 100000,
                    ;
                }
                let sx = sin_milli(phase * x_step);
                let sy = sin_milli(phase * y_step);
                self.instance_controller.position = Vec3 { x: sx, y: sy + y_base, z };
            },
        }
        if self.count < u32::MAX {
            self.count = self.count + 1;
        }
    }

    /// Whether a shot from `position` along `direction` hits the target:
    /// exactly [`spec_shot_hits`] around the target's center.
    pub fn check_shot(&self, position: Vec3, direction: Vec3) -> (r: bool)
        requires
            self.wf(),
            in_bounds3(position, 500000),
            in_bounds3(direction, 1000),
        ensures
            r == spec_shot_hits(self.instance_controller.position, position, direction),
    {
        let t = self.instance_controller.position;
        let rx = position.x - t.x;
        let ry = position.y - t.y;
        let rz = position.z - t.z;
        proof {
            lemma_shot_products_bounded(
                rx as int,
                ry as int,
                rz as int,
                direction.x as int,
                direction.y as int,
                direction.z as int,
            );
        }
        let rr = rx * rx + ry * ry + rz * rz;
        let dd = direction.x * direction.x + direction.y * direction.y + direction.z * direction.z;
        let rd = rx * direction.x + ry * direction.y + rz * direction.z;
        if dd == 0 {
            rr <= HIT_RADIUS * HIT_RADIUS
        } else {
            proof {
                assert(0 <= 40000 * dd <= 120000000000) by (nonlinear_arith)
                    requires
                        0 <= dd <= 3000000,
                ;
            }
            rr * dd - rd * rd <= HIT_RADIUS * HIT_RADIUS * dd
        }
    }
}

/// A sway term `amplitude * sin / 1000` stays within the amplitude.
proof fn lemma_sway_bounds(amplitude: int, s: int)
    requires
        -200000 <= amplitude <= 200000,
        -1000 <= s <= 1000,
    ensures
        -200000000 <= amplitude * s <= 200000000,
        -200000 <= (amplitude * s) / 1000 <= 200000,
{
    assert(-200000000 <= amplitude * s <= 200000000) by (nonlinear_arith)
        requires
            -200000 <= amplitude <= 200000,
            -1000 <= s <= 1000,
    ;
    vstd::arithmetic::div_mod::lemma_div_multiples_vanish(-200000, 1000);
    vstd::arithmetic::div_mod::lemma_div_multiples_vanish(200000, 1000);
    vstd::arithmetic::div_mod::lemma_div_is_ordered(-200000000, amplitude * s, 1000);
    vstd::arithmetic::div_mod::lemma_div_is_ordered(amplitude * s, 200000000, 1000);
}

/// The products of the ray test stay inside `i64` for in-range inputs.
proof fn lemma_shot_products_bounded(rx: int, ry: int, rz: int, dx: int, dy: int, dz: int)
    requires
        -1000000 <= rx <= 1000000,
        -1000000 <= ry <= 1000000,
        -1000000 <= rz <= 1000000,
        -1000 <= dx <= 1000,
        -1000 <= dy <= 1000,
        -1000 <= dz <= 1000,
    ensures
        0 <= rx * rx <= 1000000000000,
        0 <= ry * ry <= 1000000000000,
        0 <= rz * rz <= 1000000000000,
        0 <= dx * dx <= 1000000,
        0 <= dy * dy <= 1000000,
        0 <= dz * dz <= 1000000,
        -1000000000 <= rx * dx <= 1000000000,
        -1000000000 <= ry * dy <= 1000000000,
        -1000000000 <= rz * dz <= 1000000000,
        0 <= rx * rx + ry * ry + rz * rz <= 3000000000000,
        0 <= dx * dx + dy * dy + dz * dz <= 3000000,
        -3000000000 <= rx * dx + ry * dy + rz * dz <= 3000000000,
        0 <= (rx * rx + ry * ry + rz * rz) * (dx * dx + dy * dy + dz * dz)
            <= 9000000000000000000,
        0 <= (rx * dx + ry * dy + rz * dz) * (rx * dx + ry * dy + rz * dz)
            <= 9000000000000000000,
{
    assert(0 <= rx * rx <= 1000000000000 && 0 <= ry * ry <= 1000000000000 && 0 <= rz * rz
        <= 1000000000000 && 0 <= dx * dx <= 1000000 && 0 <= dy * dy <= 1000000 && 0 <= dz * dz
        <= 1000000 && -1000000000 <= rx * dx <= 1000000000 && -1000000000 <= ry * dy <= 1000000000
        && -1000000000 <= rz * dz <= 1000000000) by (nonlinear_arith)
        requires
            -1000000 <= rx <= 1000000,
            -1000000 <= ry <= 1000000,
            -1000000 <= rz <= 1000000,
            -1000 <= dx <= 1000,
            -1000 <= dy <= 1000,
            -1000 <= dz <= 1000,
    ;
    let rr = rx * rx + ry * ry + rz * rz;
    let dd = dx * dx + dy * dy + dz * dz;
    let rd = rx * dx + ry * dy + rz * dz;
    assert(0 <= rr * dd <= 9000000000000000000) by (nonlinear_arith)
        requires
            0 <= rr <= 3000000000000,
            0 <= dd <= 3000000,
    ;
    assert(0 <= rd * rd <= 9000000000000000000) by (nonlinear_arith)
        requires
            -3000000000 <= rd <= 3000000000,
    ;
}

} // verus!
