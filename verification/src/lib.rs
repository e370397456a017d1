//! Core of a small first-person shooter: scene state machine, camera
//! control, wall collision resolution, target hit tests and the
//! instance-caching protocol that keeps redundant renderer uploads away.
//!
//! All world and screen quantities are fixed-point integers: one unit of
//! world space or one pixel is `MILLI` (1000) ticks. Angles are measured
//! in milli-degrees. The renderer and the window loop live outside this
//! crate and talk to it through plain values ([`render::RenderRequest`],
//! [`input::InputStates`]).

pub mod cache;
pub mod camera;
pub mod digits;
pub mod floor;
pub mod geometry;
pub mod input;
pub mod instance;
pub mod numeric;
pub mod message;
pub mod model_index;
pub mod render;
pub mod reticle;
pub mod scene;
pub mod target;
pub mod vector_util;
pub mod wall;

use vstd::prelude::*;

verus! {

/// Fixed-point scale: ticks per world unit, per pixel, and per degree.
pub const MILLI: i64 = 1000;

} // verus!
