//! The mesh the video pipeline draws: positions in whole scene units and
//! texture corners.
use vstd::prelude::*;

verus! {

/// A corner of the video quad: a homogeneous position and its texture
/// coordinate.
#[derive(Clone, Copy, Debug)]
pub struct Vertex {
    pub pos: [i32; 4],
    pub tex_coord: [i8; 2],
}

impl Vertex {
    /// The corner at the point `pos`, with texture coordinate `tc`.
    pub fn new(pos: [i32; 3], tc: [i8; 2]) -> (v: Vertex)
        ensures
            v == (Vertex { pos: [pos[0], pos[1], pos[2], 1i32], tex_coord: tc }),
    {
        Vertex { pos: [pos[0], pos[1], pos[2], 1], tex_coord: tc }
    }
}

/// The corners of a mesh and the triangles over them, three indices each.
pub struct ModelBundle {
    pub vertex_data: Vec<Vertex>,
    pub index_data: Vec<u32>,
}

} // verus!
