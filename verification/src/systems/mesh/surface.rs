//! The data of a surface: its vertices, its triangles, and the hash by which
//! two surfaces with the same contents are recognised.

use crate::systems::mesh::buffer::VertexBuffer;
use crate::systems::mesh::buffer::VertexBufferView;
use crate::utils::hash_combine;
use crate::utils::spec_hash_combine;
use vstd::prelude::*;

verus! {

/// What a `TriangleBuffer` holds, as mathematical values.
pub struct TriangleBufferView {
    pub triangles: Seq<[u32; 3]>,
    pub data_hash: u64,
}

/// The triangles of a surface: each names three vertices by their index.
#[derive(Debug)]
pub struct TriangleBuffer {
    triangles: Vec<[u32; 3]>,
    data_hash: u64,
}

impl View for TriangleBuffer {
    type V = TriangleBufferView;

    closed spec fn view(&self) -> TriangleBufferView {
        TriangleBufferView { triangles: self.triangles@, data_hash: self.data_hash }
    }
}

impl TriangleBuffer {
    /// A buffer of the given triangles, whose contents hash to `data_hash`.
    pub fn new(triangles: Vec<[u32; 3]>, data_hash: u64) -> (buffer: TriangleBuffer)
        ensures
            buffer@ == (TriangleBufferView { triangles: triangles@, data_hash }),
    {
        TriangleBuffer { triangles, data_hash }
    }

    /// The triangles.
    pub fn triangles_ref(&self) -> (triangles: &[[u32; 3]])
        ensures
            triangles@ == self@.triangles,
    {
        self.triangles.as_slice()
    }

    /// The number of triangles.
    pub fn len(&self) -> (len: usize)
        ensures
            len == self@.triangles.len(),
    {
        self.triangles.len()
    }

    /// The hash of the triangles, as it was last computed.
    pub fn data_hash(&self) -> (hash: u64)
        ensures
            hash == self@.data_hash,
    {
        self.data_hash
    }

    /// Removes every triangle. The hash is that of no data.
    pub fn clear(&mut self)
        ensures
            final(self)@ == (TriangleBufferView { triangles: Seq::empty(), data_hash: 0 }),
    {
        self.triangles.clear();
        self.data_hash = 0;
    }
}

impl Default for TriangleBuffer {
    fn default() -> (buffer: TriangleBuffer)
        ensures
            buffer@ == (TriangleBufferView { triangles: Seq::empty(), data_hash: 0 }),
    {
        TriangleBuffer { triangles: Vec::new(), data_hash: 0 }
    }
}

/// What a `SurfaceData` holds, as mathematical values.
pub struct SurfaceDataView {
    pub vertex_buffer: VertexBufferView,
    pub geometry_buffer: TriangleBufferView,
    pub is_procedural: bool,
}

/// Data source of a surface. Surfaces can share one data source, so that
/// many instances of a model are drawn from the same buffers.
#[derive(Debug)]
pub struct SurfaceData {
    /// Current vertex buffer.
    pub vertex_buffer: VertexBuffer,
    /// Current geometry buffer.
    pub geometry_buffer: TriangleBuffer,
    is_procedural: bool,
}

impl View for SurfaceData {
    type V = SurfaceDataView;

    closed spec fn view(&self) -> SurfaceDataView {
        SurfaceDataView {
            vertex_buffer: self.vertex_buffer@,
            geometry_buffer: self.geometry_buffer@,
            is_procedural: self.is_procedural,
        }
    }
}

impl SurfaceData {
    /// A data source with the given vertices and triangles. `is_procedural`
    /// says that the surface was generated and has no resource behind it.
    pub fn new(vertex_buffer: VertexBuffer, triangles: TriangleBuffer, is_procedural: bool) -> (data:
        SurfaceData)
        ensures
            data@ == (SurfaceDataView {
                vertex_buffer: vertex_buffer@,
                geometry_buffer: triangles@,
                is_procedural,
            }),
    {
        SurfaceData { vertex_buffer, geometry_buffer: triangles, is_procedural }
    }

    /// Whether the surface was generated.
    pub fn is_procedural(&self) -> (procedural: bool)
        ensures
            procedural == self@.is_procedural,
    {
        self.is_procedural
    }

    /// The hash of the contents: the hash of the triangles combined with the
    /// hash of the vertices.
    pub fn content_hash(&self) -> (hash: u64)
        ensures
            hash == spec_hash_combine(
                self@.geometry_buffer.data_hash,
                self@.vertex_buffer.data_hash,
            ),
    {
        hash_combine(self.geometry_buffer.data_hash(), self.vertex_buffer.data_hash())
    }

    /// Clears both the vertex and the triangle buffer.
    pub fn clear(&mut self)
        ensures
            final(self)@ == (SurfaceDataView {
                vertex_buffer: VertexBufferView {
                    vertex_count: 0,
                    data: Seq::empty(),
                    data_hash: 0,
                    ..old(self)@.vertex_buffer
                },
                geometry_buffer: TriangleBufferView { triangles: Seq::empty(), data_hash: 0 },
                is_procedural: old(self)@.is_procedural,
            }),
    {
        self.geometry_buffer.clear();
        self.vertex_buffer.clear();
    }
}

} // verus!
