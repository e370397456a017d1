//! The unit of renderable state: one instance's transform and texture
//! sub-region, all in fixed-point ticks.

use vstd::prelude::*;

verus! {

use crate::geometry::Vec3;

/// A texture sub-region: offset and size, each axis scaled by 1000 over
/// the full texture.
#[derive(Clone, Copy, PartialEq, Eq, Structural, Debug)]
pub struct UvRect {
    pub x: i64,
    pub y: i64,
    pub w: i64,
    pub h: i64,
}

/// One renderable's transform: scale, rotation around the vertical axis
/// in milli-degrees, position in ticks, and texture sub-region.
#[derive(Clone, Copy, PartialEq, Eq, Structural, Debug)]
pub struct InstanceController {
    /// Scale per axis, 1000 ticks meaning unchanged.
    pub scale: Vec3,
    /// Rotation around the vertical axis, milli-degrees.
    pub rotation: i64,
    /// Position, ticks.
    pub position: Vec3,
    /// Texture sub-region, the full texture by default.
    pub uv: UvRect,
}

impl Default for InstanceController {
    /// The identity transform over the full texture.
    fn default() -> (r: Self)
        ensures
            r == InstanceController::identity(),
    {
        InstanceController {
            scale: Vec3 { x: 1000, y: 1000, z: 1000 },
            rotation: 0,
            position: Vec3 { x: 0, y: 0, z: 0 },
            uv: UvRect { x: 0, y: 0, w: 1000, h: 1000 },
        }
    }
}

impl InstanceController {
    /// The identity transform over the full texture, as a spec value.
    pub open spec fn identity() -> InstanceController {
        InstanceController {
            scale: Vec3 { x: 1000i64, y: 1000i64, z: 1000i64 },
            rotation: 0i64,
            position: Vec3 { x: 0i64, y: 0i64, z: 0i64 },
            uv: UvRect { x: 0i64, y: 0i64, w: 1000i64, h: 1000i64 },
        }
    }
}

} // verus!
