//! The static floor: one cached renderable scaled to the field's width
//! and depth.

use vstd::prelude::*;

verus! {

use crate::cache::Cache;
use crate::geometry::Vec3;
use crate::instance::{InstanceController, UvRect};

/// The floor entity of the world.
pub struct Floor {
    pub instance_controller: Cache<InstanceController>,
}

impl Floor {
    /// A floor of the given width and depth in ticks, unit high, at the
    /// origin.
    pub fn new(width: i64, depth: i64) -> (r: Floor)
        ensures
            !r.instance_controller.is_cached,
            r.instance_controller.content == (InstanceController {
                scale: Vec3 { x: width, y: 1000i64, z: depth },
                rotation: 0i64,
                position: Vec3 { x: 0i64, y: 0i64, z: 0i64 },
                uv: UvRect { x: 0i64, y: 0i64, w: 1000i64, h: 1000i64 },
            }),
    {
        Floor {
            instance_controller: Cache::new(
                InstanceController {
                    scale: Vec3 { x: width, y: 1000, z: depth },
                    rotation: 0,
                    position: Vec3 { x: 0, y: 0, z: 0 },
                    uv: UvRect { x: 0, y: 0, w: 1000, h: 1000 },
                },
            ),
        }
    }

    /// The renderable state, handed out only when the renderer has not
    /// seen it yet: `None` means nothing changed.
    pub fn get_instance_controller(&mut self) -> (r: Option<InstanceController>)
        ensures
            final(self).instance_controller.content == old(self).instance_controller.content,
            final(self).instance_controller.is_cached,
            old(self).instance_controller.is_cached ==> r is None,
            !old(self).instance_controller.is_cached ==> r == Some(
                old(self).instance_controller.content,
            ),
    {
        self.instance_controller.cache()
    }
}

} // verus!
