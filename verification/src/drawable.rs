//! Drawables: one renderable object pairing its CPU description with the GPU
//! resources compiled or uploaded from it, and the atomic construction rule.

use vstd::prelude::*;
use crate::geometry::Geometry;
use crate::geometry::Vertex;

verus! {

/// Handle of a compiled shader program. The front end assigns the identifier
/// when it compiles the program on the GPU.
#[derive(Copy, Clone, PartialEq, Eq, Structural, Debug)]
pub struct ProgramHandle {
    pub id: u64,
}

/// Handle of a GPU-resident buffer (vertex or index data).
#[derive(Copy, Clone, PartialEq, Eq, Structural, Debug)]
pub struct BufferHandle {
    pub id: u64,
}

/// Why constructing a GPU resource failed: shader compilation or linking
/// failed, or a buffer upload failed. Either is fatal to the drawable under
/// construction, never to the application as a whole.
#[derive(Copy, Clone, PartialEq, Eq, Structural, Debug)]
pub enum ResourceError {
    Compile,
    Alloc,
}

/// One renderable object: the CPU description together with the GPU handles
/// produced from it exactly once, at construction. There is no update path,
/// so the handles stay in sync with the CPU fields for the drawable's whole
/// life.
#[derive(Debug)]
pub struct Drawable {
    pub vertex_shader: String,
    pub pixel_shader: String,
    pub vertices: Vec<Vertex>,
    pub indices: Option<Vec<u32>>,
    pub vertex_buffer: BufferHandle,
    pub index_buffer: Option<BufferHandle>,
    pub program: ProgramHandle,
}

impl Drawable {
    /// A drawable is well formed when it has at least one vertex and holds an
    /// index buffer exactly when it holds indices.
    pub open spec fn wf(self) -> bool {
        &&& self.vertices@.len() >= 1
        &&& (self.indices is Some <==> self.index_buffer is Some)
    }
}

/// Atomic construction of a drawable. The front end compiles the program and
/// uploads the buffers, and hands the outcome of each resource here; this
/// decides whether a drawable exists at all. Either every requested resource
/// succeeded and the drawable is ready, or the first failure is surfaced and
/// no partially initialized drawable is ever observable.
pub fn build_drawable(
    desc: Geometry,
    program: Result<ProgramHandle, ResourceError>,
    vertex_buffer: Result<BufferHandle, ResourceError>,
    index_buffer: Option<Result<BufferHandle, ResourceError>>,
) -> (r: Result<Drawable, ResourceError>)
    requires
        desc.wf(),
        index_buffer is Some <==> desc.indices is Some,
    ensures
        r is Ok <==> (program is Ok && vertex_buffer is Ok && (index_buffer matches Some(
            ib,
        ) ==> ib is Ok)),
        r matches Ok(d) ==> {
            &&& d.wf()
            &&& d.vertex_shader == desc.vertex_shader
            &&& d.pixel_shader == desc.pixel_shader
            &&& d.vertices == desc.vertices
            &&& d.indices == desc.indices
            &&& d.program == program->Ok_0
            &&& d.vertex_buffer == vertex_buffer->Ok_0
            &&& match index_buffer {
                Some(ib) => d.index_buffer == Some(ib->Ok_0),
                None => d.index_buffer is None,
            }
        },
        program matches Err(e) ==> r == Err::<Drawable, ResourceError>(e),
        program is Ok ==> (vertex_buffer matches Err(e) ==> r == Err::<Drawable, ResourceError>(
            e,
        )),
        program is Ok && vertex_buffer is Ok ==> (index_buffer matches Some(Err(e)) ==> r == Err::<
            Drawable,
            ResourceError,
        >(e)),
{
    let program = match program {
        Ok(p) => p,
        Err(e) => {
            return Err(e);
        },
    };
    let vertex_buffer = match vertex_buffer {
        Ok(b) => b,
        Err(e) => {
            return Err(e);
        },
    };
    let index_buffer = match index_buffer {
        None => None,
        Some(Ok(b)) => Some(b),
        Some(Err(e)) => {
            return Err(e);
        },
    };
    Ok(
        Drawable {
            vertex_shader: desc.vertex_shader,
            pixel_shader: desc.pixel_shader,
            vertices: desc.vertices,
            indices: desc.indices,
            vertex_buffer,
            index_buffer,
            program,
        },
    )
}

} // verus!
