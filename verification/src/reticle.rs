//! The aiming reticle: one cached UI renderable fixed at the screen
//! center.

use vstd::prelude::*;

verus! {

use crate::cache::Cache;
use crate::geometry::Vec3;
use crate::instance::{InstanceController, UvRect};

/// The reticle UI entity.
pub struct Reticle {
    pub instance_controller: Cache<InstanceController>,
}

impl Reticle {
    /// A reticle of 200 pixels a side at the screen center, reading its
    /// image from the reticle quarter of the UI texture.
    pub fn new() -> (r: Reticle)
        ensures
            !r.instance_controller.is_cached,
            r.instance_controller.content == (InstanceController {
                scale: Vec3 { x: 200000i64, y: 200000i64, z: 1000i64 },
                rotation: 0i64,
                position: Vec3 { x: 0i64, y: 0i64, z: 0i64 },
                uv: UvRect { x: 0i64, y: 750i64, w: 250i64, h: 250i64 },
            }),
    {
        Reticle {
            instance_controller: Cache::new(
                InstanceController {
                    scale: Vec3 { x: 200000, y: 200000, z: 1000 },
                    rotation: 0,
                    position: Vec3 { x: 0, y: 0, z: 0 },
                    uv: UvRect { x: 0, y: 750, w: 250, h: 250 },
                },
            ),
        }
    }

    /// The renderable state, handed out only when the renderer has not
    /// seen it yet: `None` means nothing changed.
    pub fn get_instance_controller(&mut self) -> (r: Option<InstanceController>)
        ensures
            final(self).instance_controller.content == old(self).instance_controller.content,
            final(self).instance_controller.is_cached,
            old(self).instance_controller.is_cached ==> r is None,
            !old(self).instance_controller.is_cached ==> r == Some(
                old(self).instance_controller.content,
            ),
    {
        self.instance_controller.cache()
    }
}

} // verus!
