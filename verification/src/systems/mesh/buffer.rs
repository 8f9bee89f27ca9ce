//! Vertex buffers: raw vertex data together with the description of the
//! attributes that each vertex consists of.

use vstd::prelude::*;

verus! {

/// What a vertex attribute is used for. The set is fixed; custom data goes
/// into one of the texture-coordinate attributes.
#[derive(Clone, Copy, Debug, PartialEq, Eq, Structural, Hash, PartialOrd, Ord)]
pub enum VertexAttributeUsage {
    /// Vertex position.
    Position,
    /// Vertex normal.
    Normal,
    /// Vertex tangent.
    Tangent,
    /// First texture coordinates.
    TexCoord0,
    /// Second texture coordinates.
    TexCoord1,
    /// Third texture coordinates.
    TexCoord2,
    /// Fourth texture coordinates.
    TexCoord3,
    /// Fifth texture coordinates.
    TexCoord4,
    /// Sixth texture coordinates.
    TexCoord5,
    /// Seventh texture coordinates.
    TexCoord6,
    /// Eighth texture coordinates.
    TexCoord7,
    /// Bone weights.
    BoneWeight,
    /// Bone indices.
    BoneIndices,
    /// The number of usages; not a usage itself.
    Count,
}

/// The number of usages that an attribute can have.
pub const VERTEX_ATTRIBUTE_USAGE_COUNT: usize = 13;

impl VertexAttributeUsage {
    /// The position of the usage in a vertex buffer's table of attributes.
    pub open spec fn spec_index(self) -> nat {
        match self {
            VertexAttributeUsage::Position => 0,
            VertexAttributeUsage::Normal => 1,
            VertexAttributeUsage::Tangent => 2,
            VertexAttributeUsage::TexCoord0 => 3,
            VertexAttributeUsage::TexCoord1 => 4,
            VertexAttributeUsage::TexCoord2 => 5,
            VertexAttributeUsage::TexCoord3 => 6,
            VertexAttributeUsage::TexCoord4 => 7,
            VertexAttributeUsage::TexCoord5 => 8,
            VertexAttributeUsage::TexCoord6 => 9,
            VertexAttributeUsage::TexCoord7 => 10,
            VertexAttributeUsage::BoneWeight => 11,
            VertexAttributeUsage::BoneIndices => 12,
            VertexAttributeUsage::Count => 13,
        }
    }

    /// The position of the usage in a vertex buffer's table of attributes.
    pub fn index(self) -> (index: usize)
        ensures
            index == self.spec_index(),
            index <= VERTEX_ATTRIBUTE_USAGE_COUNT,
            index == VERTEX_ATTRIBUTE_USAGE_COUNT <==> self is Count,
    {
        match self {
            VertexAttributeUsage::Position => 0,
            VertexAttributeUsage::Normal => 1,
            VertexAttributeUsage::Tangent => 2,
            VertexAttributeUsage::TexCoord0 => 3,
            VertexAttributeUsage::TexCoord1 => 4,
            VertexAttributeUsage::TexCoord2 => 5,
            VertexAttributeUsage::TexCoord3 => 6,
            VertexAttributeUsage::TexCoord4 => 7,
            VertexAttributeUsage::TexCoord5 => 8,
            VertexAttributeUsage::TexCoord6 => 9,
            VertexAttributeUsage::TexCoord7 => 10,
            VertexAttributeUsage::BoneWeight => 11,
            VertexAttributeUsage::BoneIndices => 12,
            VertexAttributeUsage::Count => 13,
        }
    }
}

impl Default for VertexAttributeUsage {
    fn default() -> (usage: VertexAttributeUsage)
        ensures
            usage == VertexAttributeUsage::Position,
    {
        Self::Position
    }
}

/// Data type of the components of a vertex attribute.
#[derive(Clone, Copy, Debug, PartialEq, Eq, Structural, Hash, PartialOrd, Ord)]
pub enum VertexAttributeDataType {
    /// 32-bit floating-point.
    F32,
    /// 32-bit unsigned integer.
    U32,
    /// 16-bit unsigned integer.
    U16,
    /// 8-bit unsigned integer.
    U8,
}

impl Default for VertexAttributeDataType {
    fn default() -> (data_type: VertexAttributeDataType)
        ensures
            data_type == VertexAttributeDataType::F32,
    {
        Self::F32
    }
}

impl VertexAttributeDataType {
    /// Size of one component, in bytes.
    pub open spec fn spec_size(self) -> u8 {
        match self {
            VertexAttributeDataType::F32 | VertexAttributeDataType::U32 => 4,
            VertexAttributeDataType::U16 => 2,
            VertexAttributeDataType::U8 => 1,
        }
    }

    /// Size of one component, in bytes.
    #[verifier::when_used_as_spec(spec_size)]
    pub fn size(self) -> (size: u8)
        ensures
            size == self.spec_size(),
    {
        match self {
            VertexAttributeDataType::F32 | VertexAttributeDataType::U32 => 4,
            VertexAttributeDataType::U16 => 2,
            VertexAttributeDataType::U8 => 1,
        }
    }
}

/// One attribute of a vertex.
#[derive(Clone, Copy, Debug, PartialEq, Eq, Structural)]
pub struct VertexAttribute {
    /// What the attribute is used for.
    pub usage: VertexAttributeUsage,
    /// Data type of every component of the attribute.
    pub data_type: VertexAttributeDataType,
    /// Number of components of the attribute.
    pub size: u8,
    /// The rate at which the vertex shader reads the attribute: 0 per
    /// vertex, 1 per instance, 2 per 2 instances and so on.
    pub divisor: u8,
    /// Offset in bytes from the beginning of the vertex.
    pub offset: u8,
    /// Location of the attribute in a shader.
    pub shader_location: u8,
}

impl VertexAttribute {
    /// The number of bytes that the attribute takes in a vertex.
    pub open spec fn spec_size_bytes(self) -> nat {
        (self.size * self.data_type.spec_size()) as nat
    }

    /// The number of bytes that the attribute takes in a vertex.
    pub fn size_bytes(&self) -> (bytes: usize)
        ensures
            bytes == self.spec_size_bytes(),
    {
        assert(self.size * self.data_type.spec_size() <= 255 * 4) by (nonlinear_arith)
            requires
                self.size <= 255,
                self.data_type.spec_size() <= 4,
        ;
        let size: usize = self.size as usize;
        let component: usize = self.data_type.size() as usize;
        size * component
    }
}

/// What a `VertexBuffer` holds, as mathematical values.
pub struct VertexBufferView {
    pub layout: Seq<VertexAttribute>,
    pub vertex_size: u8,
    pub vertex_count: u32,
    pub data: Seq<u8>,
    pub data_hash: u64,
}

/// Raw vertex data and the attributes that each vertex consists of.
#[derive(Debug)]
pub struct VertexBuffer {
    dense_layout: Vec<VertexAttribute>,
    vertex_size: u8,
    vertex_count: u32,
    data: Vec<u8>,
    data_hash: u64,
}

impl View for VertexBuffer {
    type V = VertexBufferView;

    closed spec fn view(&self) -> VertexBufferView {
        VertexBufferView {
            layout: self.dense_layout@,
            vertex_size: self.vertex_size,
            vertex_count: self.vertex_count,
            data: self.data@,
            data_hash: self.data_hash,
        }
    }
}

impl VertexBufferView {
    /// Whether the data holds `vertex_count` vertices of `vertex_size` bytes
    /// each.
    pub open spec fn wf(self) -> bool {
        self.data.len() == self.vertex_count * self.vertex_size
    }
}

impl VertexBuffer {
    /// A buffer of `vertex_count` vertices of `vertex_size` bytes each, whose
    /// attributes `layout` describes. `None` unless `data` has the size of
    /// that many vertices.
    pub fn new(
        vertex_size: u8,
        vertex_count: u32,
        layout: Vec<VertexAttribute>,
        data: Vec<u8>,
        data_hash: u64,
    ) -> (buffer: Option<VertexBuffer>)
        ensures
            match buffer {
                Some(b) => {
                    &&& data.len() == vertex_count * vertex_size
                    &&& b@ == (VertexBufferView {
                        layout: layout@,
                        vertex_size,
                        vertex_count,
                        data: data@,
                        data_hash,
                    })
                    &&& b@.wf()
                },
                None => data.len() != vertex_count * vertex_size,
            },
    {
        assert(vertex_count * vertex_size <= 0xffff_ffff * 0xff) by (nonlinear_arith)
            requires
                vertex_count <= 0xffff_ffff,
                vertex_size <= 0xff,
        ;
        let expected: u64 = (vertex_count as u64) * (vertex_size as u64);
        if data.len() as u64 != expected {
            return None;
        }
        Some(VertexBuffer { dense_layout: layout, vertex_size, vertex_count, data, data_hash })
    }

    /// Removes every vertex. The layout stays; the hash is that of no data.
    pub fn clear(&mut self)
        ensures
            final(self)@ == (VertexBufferView {
                vertex_count: 0,
                data: Seq::empty(),
                data_hash: 0,
                ..old(self)@
            }),
            final(self)@.wf(),
    {
        self.data.clear();
        self.vertex_count = 0;
        self.data_hash = 0;
    }

    /// A vertex buffer without attributes and without vertices.
    pub fn empty() -> (buffer: VertexBuffer)
        ensures
            buffer@.layout == Seq::<VertexAttribute>::empty(),
            buffer@.vertex_size == 0,
            buffer@.vertex_count == 0,
            buffer@.data == Seq::<u8>::empty(),
            buffer@.data_hash == 0,
    {
        VertexBuffer {
            dense_layout: Vec::new(),
            vertex_size: 0,
            vertex_count: 0,
            data: Vec::new(),
            data_hash: 0,
        }
    }

    /// Size of one vertex, in bytes.
    pub fn vertex_size(&self) -> (size: u8)
        ensures
            size == self@.vertex_size,
    {
        self.vertex_size
    }

    /// The number of vertices.
    pub fn vertex_count(&self) -> (count: u32)
        ensures
            count == self@.vertex_count,
    {
        self.vertex_count
    }

    /// The attributes of a vertex, in the order of their offsets.
    pub fn layout(&self) -> (layout: &[VertexAttribute])
        ensures
            layout@ == self@.layout,
    {
        self.dense_layout.as_slice()
    }

    /// The vertex data.
    pub fn raw_data(&self) -> (data: &[u8])
        ensures
            data@ == self@.data,
    {
        self.data.as_slice()
    }

    /// The hash of the vertex data, as it was last computed.
    pub fn data_hash(&self) -> (hash: u64)
        ensures
            hash == self@.data_hash,
    {
        self.data_hash
    }
}

impl Default for VertexBuffer {
    fn default() -> (buffer: VertexBuffer)
        ensures
            buffer@.layout == Seq::<VertexAttribute>::empty(),
            buffer@.vertex_size == 0,
            buffer@.vertex_count == 0,
            buffer@.data == Seq::<u8>::empty(),
            buffer@.data_hash == 0,
    {
        VertexBuffer::empty()
    }
}

} // verus!
