use vstd::prelude::*;

use crate::animation::{advanced, Context, ROTATION_LIMIT};

verus! {

/// Distance of the triangle's fixed corners from the origin, in millionths (`0.7`).
pub const CORNER: i64 = 700_000;

/// Components per vertex (x, y, z).
pub const COMPONENTS: u32 = 3;

/// The nine coordinates of the triangle at `rotation`: the two base corners sit
/// at `(-0.7, -0.7, 0)` and `(0.7, -0.7, 0)` moved inwards by `rotation`, the apex
/// stays at `(0, 0.7, 0)`.
pub open spec fn triangle(rotation: int) -> Seq<int> {
    let low = 0 - CORNER;
    seq![
        low + rotation, low, 0,
        CORNER - rotation, low, 0,
        0, CORNER as int, 0,
    ]
}

/// One step that the graphics context carries out while drawing a frame.
#[derive(PartialEq, Eq, Structural, Clone, Copy, Debug)]
pub enum Command {
    /// Bind the frame's vertex buffer as the array buffer.
    BindArrayBuffer,
    /// Replace the whole content of the array buffer with the frame's vertices,
    /// with a static-draw usage hint.
    UploadVertices,
    /// Describe the layout of a vertex attribute: components per vertex,
    /// tightly packed (stride and offset in bytes).
    DescribeLayout { attribute: u32, components: u32, stride: u32, offset: u32 },
    /// Enable a vertex attribute slot.
    EnableAttribute { attribute: u32 },
    /// Set the clear color, each channel out of 255.
    SetClearColor { red: u8, green: u8, blue: u8, alpha: u8 },
    /// Clear the color buffer.
    ClearColorBuffer,
    /// Draw consecutive vertices as triangles.
    DrawTriangles { first: u32, vertex_count: u32 },
}

/// The steps of every frame, in order: upload, describe, clear to opaque black,
/// and draw the three vertices as one triangle.
pub open spec fn frame_commands() -> Seq<Command> {
    seq![
        Command::BindArrayBuffer,
        Command::UploadVertices,
        Command::DescribeLayout { attribute: 0, components: 3, stride: 0, offset: 0 },
        Command::EnableAttribute { attribute: 0 },
        Command::SetClearColor { red: 0, green: 0, blue: 0, alpha: 255 },
        Command::ClearColorBuffer,
        Command::DrawTriangles { first: 0, vertex_count: 3 },
    ]
}

/// What one frame draws: the rotation that shaped it, its vertex coordinates in
/// millionths, and the steps that upload and draw them.
pub struct Frame {
    pub rotation: u64,
    pub vertices: Vec<i64>,
    pub commands: Vec<Command>,
}

/// The vertex coordinates of the triangle at `rotation` (in millionths).
pub fn triangle_vertices(rotation: u64) -> (r: Vec<i64>)
    requires
        rotation <= i64::MAX,
    ensures
        r@.len() == 9,
        r@.map_values(|v: i64| v as int) == triangle(rotation as int),
{
    let shift = rotation as i64;
    let low: i64 = 0 - CORNER;
    let left: i64 = low + shift;
    let right: i64 = CORNER - shift;
    let r: Vec<i64> = vec![left, low, 0, right, low, 0, 0, CORNER, 0];
    assert(r@.map_values(|v: i64| v as int) =~= triangle(rotation as int));
    r
}

/// Advances `ctx` by `delta` microseconds and plans the frame. The geometry uses
/// the advanced rotation as it stands before a reset at the bound.
pub fn render_scene(ctx: &mut Context, delta: u32) -> (r: Frame)
    ensures
        final(ctx)@ == advanced(old(ctx)@, delta as nat),
        r.rotation == old(ctx)@ + delta,
        r.vertices@.len() == 9,
        r.vertices@.map_values(|v: i64| v as int) == triangle(r.rotation as int),
        r.commands@ == frame_commands(),
{
    let rotation = ctx.rotation() as u64 + delta as u64;
    ctx.advance(delta);
    let vertices = triangle_vertices(rotation);
    let vertex_count = (vertices.len() / COMPONENTS as usize) as u32;
    let commands: Vec<Command> = vec![
        Command::BindArrayBuffer,
        Command::UploadVertices,
        Command::DescribeLayout { attribute: 0, components: COMPONENTS, stride: 0, offset: 0 },
        Command::EnableAttribute { attribute: 0 },
        Command::SetClearColor { red: 0, green: 0, blue: 0, alpha: 255 },
        Command::ClearColorBuffer,
        Command::DrawTriangles { first: 0, vertex_count },
    ];
    assert(commands@ =~= frame_commands());
    Frame { rotation, vertices, commands }
}

} // verus!
