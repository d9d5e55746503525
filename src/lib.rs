//! Core of a single animated WebGL triangle: the bounded animation parameter,
//! the geometry derived from it, frame timing, the command plan of one frame,
//! and the decisions taken while shaders are compiled and linked at startup.
//!
//! Lengths are held in millionths (a rotation of `1_400_000` is `1.4`) and time
//! in microseconds, so that every rule is exact integer arithmetic.

use vstd::prelude::*;

pub mod animation;
pub mod frame;
pub mod shader;
pub mod startup;
pub mod timing;

pub use animation::{Context, ROTATION_LIMIT};
pub use frame::{render_scene, triangle_vertices, Command, Frame, COMPONENTS, CORNER};
pub use shader::{compile_shader, link_program, ErrorKind, GlError, ShaderKind};
pub use startup::{Action, Stage, Startup};
pub use timing::FrameLoop;

verus! {

/// The sum of two unsigned integers, which must fit in `u32`.
pub fn add(a: u32, b: u32) -> (r: u32)
    requires
        a + b <= u32::MAX,
    ensures
        r == a + b,
{
    a + b
}

} // verus!
