//! The screen that video frames are shown on: its quad, and when its
//! textures must be made anew for a new picture size.
use crate::pipelines::video::{ModelBundle, Vertex};
use crate::video::Resolution;
use vstd::prelude::*;

verus! {

/// The picture size the video screen's textures are made for.
pub struct VideoExample {
    pub width: u32,
    pub height: u32,
}

/// A corner of the quad at `(x, y, z)` with texture coordinate `(u, v)`.
pub open spec fn corner(x: int, y: int, z: int, u: int, v: int) -> Vertex {
    Vertex { pos: [x as i32, y as i32, z as i32, 1i32], tex_coord: [u as i8, v as i8] }
}

/// The corners of the quad, standing upright three units along the x axis
/// and facing it: a 1920 by 1080 picture at a twentieth of a unit per
/// pixel, so 54 units above and below its centre and 96 to either side.
pub open spec fn quad_corners() -> Seq<Vertex> {
    seq![
        corner(3, -54, 96, 1, 1),
        corner(3, 54, 96, 1, 0),
        corner(3, 54, -96, 0, 0),
        corner(3, -54, -96, 0, 1),
    ]
}

/// The quad's two triangles.
pub open spec fn quad_indices() -> Seq<u32> {
    seq![0u32, 1, 2, 2, 3, 0]
}

/// The quad that video frames are drawn on.
pub fn generate_quad() -> (bundle: ModelBundle)
    ensures
        bundle.vertex_data@ == quad_corners(),
        bundle.index_data@ == quad_indices(),
        forall|i: int| 0 <= i < bundle.index_data.len() ==> bundle.index_data@[i] < bundle.vertex_data.len(),
{
    // A twentieth of a unit per pixel.
    let h: i32 = 1080 / 20;
    let w: i32 = 1920 / 20;
    let (x, y, z): (i32, i32, i32) = (3, 0, 0);

    let (bottom, top): (i32, i32) = (y - h, y + h);
    let (back, front): (i32, i32) = (z - w, z + w);

    let vertex_data = vec![
        Vertex::new([x, bottom, front], [1, 1]),
        Vertex::new([x, top, front], [1, 0]),
        Vertex::new([x, top, back], [0, 0]),
        Vertex::new([x, bottom, back], [0, 1]),
    ];
    let index_data: Vec<u32> = vec![0, 1, 2, 2, 3, 0];
    assert(vertex_data@ =~= quad_corners());
    assert(index_data@ =~= quad_indices());
    ModelBundle { vertex_data, index_data }
}

impl VideoExample {
    /// A screen whose textures are made for a 512 by 512 picture.
    pub fn create() -> (example: VideoExample)
        ensures
            example.width == 512,
            example.height == 512,
    {
        VideoExample { width: 512, height: 512 }
    }

    /// Takes the size of the next picture. When it differs from the size
    /// the textures are made for, the new size is recorded and returned,
    /// and the textures are to be made anew at that size; otherwise
    /// nothing changes.
    pub fn check_resize(&mut self, resolution: Resolution) -> (resized: Option<(u32, u32)>)
        ensures
            resolution.width != old(self).width || resolution.height != old(self).height ==> {
                &&& resized == Some((resolution.width as u32, resolution.height as u32))
                &&& final(self).width == resolution.width as u32
                &&& final(self).height == resolution.height as u32
            },
            resolution.width == old(self).width && resolution.height == old(self).height ==> {
                &&& resized is None
                &&& *final(self) == *old(self)
            },
    {
        if resolution.width != self.width as usize || resolution.height != self.height as usize {
            let width = resolution.width as u32;
            let height = resolution.height as u32;
            self.width = width;
            self.height = height;
            Some((width, height))
        } else {
            None
        }
    }
}

} // verus!
