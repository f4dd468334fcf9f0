//! CPU-side geometry: vertices and the description of one renderable object.

use vstd::prelude::*;

verus! {

/// One vertex: three coordinates (x, y, z). The core never interprets a
/// coordinate, it only counts vertices, so each coordinate is carried as the
/// bit pattern of a 32-bit IEEE-754 float. The front end converts to and from
/// the GPU's float representation at the boundary.
#[derive(Copy, Clone, Debug)]
pub struct Vertex {
    pub position: [u32; 3],
}

/// The CPU-authoritative description of one renderable object: shader program
/// text (opaque to the core) and geometry. `indices` absent means the object
/// is drawn non-indexed, in vertex order.
#[derive(Debug)]
pub struct Geometry {
    pub vertex_shader: String,
    pub pixel_shader: String,
    pub vertices: Vec<Vertex>,
    pub indices: Option<Vec<u32>>,
}

impl Geometry {
    /// A description is well formed when it has at least one vertex.
    pub open spec fn wf(self) -> bool {
        self.vertices@.len() >= 1
    }

    pub fn new(
        vertex_shader: String,
        pixel_shader: String,
        vertices: Vec<Vertex>,
        indices: Option<Vec<u32>>,
    ) -> (g: Geometry)
        requires
            vertices@.len() >= 1,
        ensures
            g.wf(),
            g == (Geometry { vertex_shader, pixel_shader, vertices, indices }),
    {
        Geometry { vertex_shader, pixel_shader, vertices, indices }
    }
}

} // verus!
