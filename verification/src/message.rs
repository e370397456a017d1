//! A UI message: one quad showing a strip of the UI texture, its height
//! derived from the requested width so the strip keeps its aspect ratio.

use vstd::prelude::*;

verus! {

use crate::geometry::Vec3;
use crate::instance::{InstanceController, UvRect};
use crate::numeric::div_euclid_i64;

/// Largest message coordinate and width accepted, in milli-pixels.
pub const MESSAGE_LIMIT: i64 = 1000000000;

/// A message UI entity.
pub struct Message {
    pub instance_controller: InstanceController,
    pub is_updated: bool,
}

/// The height that keeps a texture strip's aspect: the strip is an
/// eighth of the texture high, so `width * 125 / uv_w` in milli-pixels.
pub open spec fn spec_message_height(width: int, uv_w: int) -> int {
    (width * 125) / uv_w
}

impl Message {
    /// A message quad centered at `(x, y)` with the given width, showing
    /// the strip `uv` of the UI texture.
    pub fn new(x: i64, y: i64, width: i64, uv: UvRect) -> (r: Message)
        requires
            0 < uv.w <= 1000,
            -MESSAGE_LIMIT <= x <= MESSAGE_LIMIT,
            -MESSAGE_LIMIT <= y <= MESSAGE_LIMIT,
            0 <= width <= MESSAGE_LIMIT,
        ensures
            !r.is_updated,
            r.instance_controller == (InstanceController {
                scale: Vec3 {
                    x: width,
                    y: spec_message_height(width as int, uv.w as int) as i64,
                    z: 1000i64,
                },
                rotation: 0i64,
                position: Vec3 { x, y, z: 0i64 },
                uv,
            }),
            0 <= r.instance_controller.scale.y <= 125 * MESSAGE_LIMIT,
    {
        proof {
            vstd::arithmetic::div_mod::lemma_div_is_ordered(0, width as int * 125, uv.w as int);
            vstd::arithmetic::div_mod::lemma_div_nonincreasing(width as int * 125, uv.w as int);
        }
        let height = div_euclid_i64(width * 125, uv.w);
        Message {
            instance_controller: InstanceController {
                scale: Vec3 { x: width, y: height, z: 1000 },
                rotation: 0,
                position: Vec3 { x, y, z: 0 },
                uv,
            },
            is_updated: false,
        }
    }

    /// Moves the message, marking it changed so the renderer sees the
    /// new position.
    pub fn set_position(&mut self, x: i64, y: i64)
        ensures
            final(self).instance_controller == (InstanceController {
                position: Vec3 { x, y, z: 0i64 },
                ..old(self).instance_controller
            }),
            !final(self).is_updated,
    {
        self.instance_controller.position = Vec3 { x, y, z: 0 };
        self.is_updated = false;
    }

    /// The message quad's height in milli-pixels.
    pub fn get_height(&self) -> (r: i64)
        ensures
            r == self.instance_controller.scale.y,
    {
        self.instance_controller.scale.y
    }

    /// The renderable state, handed out only when the renderer has not
    /// seen the current position yet: `None` means nothing changed.
    pub fn get_instance_controller(&mut self) -> (r: Option<InstanceController>)
        ensures
            final(self).instance_controller == old(self).instance_controller,
            final(self).is_updated,
            old(self).is_updated ==> r is None,
            !old(self).is_updated ==> r == Some(old(self).instance_controller),
    {
        if !self.is_updated {
            self.is_updated = true;
            Some(self.instance_controller)
        } else {
            None
        }
    }
}

} // verus!
