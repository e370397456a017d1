//! The protocol the simulation speaks to the renderer: per-frame commands
//! with plain-value payloads. The renderer itself lives outside this
//! crate; it must treat a `None` slot in an instance update as "leave the
//! uploaded data for this index unchanged".

use vstd::prelude::*;

verus! {

use crate::camera::CameraController;
use crate::instance::InstanceController;

/// Identifier of a built-in model.
#[derive(Clone, Copy, PartialEq, Eq, Structural, Debug, Hash)]
pub enum ModelId {
    Square,
    Cube,
    Sphere,
}

/// A color, each channel scaled by 1000.
#[derive(Clone, Copy, PartialEq, Eq, Structural, Debug)]
pub struct Rgb {
    pub r: u32,
    pub g: u32,
    pub b: u32,
}

/// The detail of a world draw: for each entry, the model to attach and
/// the start and end instance index. Consecutive instances of one model
/// are grouped into one entry to keep the draw-call count down.
#[derive(Clone, PartialEq, Eq, Debug)]
pub struct DrawWorldDescriptor {
    pub instance_indices: Vec<(ModelId, u32, u32)>,
}

/// The detail of a UI draw: the color the render target is cleared with,
/// if any, and the start and end instance indices to draw.
#[derive(Clone, PartialEq, Eq, Debug)]
pub struct DrawUiDescriptor {
    pub clear_color: Option<Rgb>,
    pub instance_indices: Vec<(u32, u32)>,
}

/// One renderer command. A frame is an ordered sequence of these.
pub enum RenderRequest {
    UpdateCamera(CameraController),
    DrawSkybox,
    /// Sparse instance updates, index-aligned with the instance buffer:
    /// `None` means the slot is unchanged.
    UpdateWorldInstances(Vec<Option<InstanceController>>),
    DrawWorld(DrawWorldDescriptor),
    /// Sparse UI instance updates, index-aligned as above.
    UpdateUiInstances(Vec<Option<InstanceController>>),
    DrawUi(DrawUiDescriptor),
}

} // verus!
