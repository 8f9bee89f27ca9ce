//! Vertex attributes as the GPU is told about them, and their layout within
//! one element of a vertex buffer.

use crate::render::error::FrameworkError;
use crate::systems::mesh::buffer::VertexAttribute;
use crate::systems::mesh::buffer::VertexAttributeDataType;
use vstd::prelude::*;

verus! {

/// The type and the number of components of a vertex attribute.
#[derive(Clone, Copy, Debug, PartialEq, Eq, Structural)]
pub enum AttributeKind {
    Float,
    Float2,
    Float3,
    Float4,
    UnsignedByte,
    UnsignedByte2,
    UnsignedByte3,
    UnsignedByte4,
    UnsignedShort,
    UnsignedShort2,
    UnsignedShort3,
    UnsignedShort4,
    UnsignedInt,
    UnsignedInt2,
    UnsignedInt3,
    UnsignedInt4,
}

impl AttributeKind {
    /// The data type of the components.
    pub open spec fn spec_component_type(self) -> VertexAttributeDataType {
        match self {
            AttributeKind::Float
            | AttributeKind::Float2
            | AttributeKind::Float3
            | AttributeKind::Float4 => VertexAttributeDataType::F32,
            AttributeKind::UnsignedByte
            | AttributeKind::UnsignedByte2
            | AttributeKind::UnsignedByte3
            | AttributeKind::UnsignedByte4 => VertexAttributeDataType::U8,
            AttributeKind::UnsignedShort
            | AttributeKind::UnsignedShort2
            | AttributeKind::UnsignedShort3
            | AttributeKind::UnsignedShort4 => VertexAttributeDataType::U16,
            AttributeKind::UnsignedInt
            | AttributeKind::UnsignedInt2
            | AttributeKind::UnsignedInt3
            | AttributeKind::UnsignedInt4 => VertexAttributeDataType::U32,
        }
    }

    /// The number of components.
    pub open spec fn spec_length(self) -> nat {
        match self {
            AttributeKind::Float
            | AttributeKind::UnsignedByte
            | AttributeKind::UnsignedShort
            | AttributeKind::UnsignedInt => 1,
            AttributeKind::Float2
            | AttributeKind::UnsignedByte2
            | AttributeKind::UnsignedShort2
            | AttributeKind::UnsignedInt2 => 2,
            AttributeKind::Float3
            | AttributeKind::UnsignedByte3
            | AttributeKind::UnsignedShort3
            | AttributeKind::UnsignedInt3 => 3,
            AttributeKind::Float4
            | AttributeKind::UnsignedByte4
            | AttributeKind::UnsignedShort4
            | AttributeKind::UnsignedInt4 => 4,
        }
    }

    /// The number of bytes of the attribute: its components times the size
    /// of each.
    pub open spec fn spec_size_bytes(self) -> nat {
        self.spec_length() * (self.spec_component_type().spec_size() as nat)
    }

    /// The kind of an attribute of `size` components of type `data_type`, for
    /// the sizes one to four.
    pub open spec fn spec_from_components(data_type: VertexAttributeDataType, size: u8) -> Option<
        AttributeKind,
    > {
        match (data_type, size) {
            (VertexAttributeDataType::F32, 1) => Some(AttributeKind::Float),
            (VertexAttributeDataType::F32, 2) => Some(AttributeKind::Float2),
            (VertexAttributeDataType::F32, 3) => Some(AttributeKind::Float3),
            (VertexAttributeDataType::F32, 4) => Some(AttributeKind::Float4),
            (VertexAttributeDataType::U32, 1) => Some(AttributeKind::UnsignedInt),
            (VertexAttributeDataType::U32, 2) => Some(AttributeKind::UnsignedInt2),
            (VertexAttributeDataType::U32, 3) => Some(AttributeKind::UnsignedInt3),
            (VertexAttributeDataType::U32, 4) => Some(AttributeKind::UnsignedInt4),
            (VertexAttributeDataType::U16, 1) => Some(AttributeKind::UnsignedShort),
            (VertexAttributeDataType::U16, 2) => Some(AttributeKind::UnsignedShort2),
            (VertexAttributeDataType::U16, 3) => Some(AttributeKind::UnsignedShort3),
            (VertexAttributeDataType::U16, 4) => Some(AttributeKind::UnsignedShort4),
            (VertexAttributeDataType::U8, 1) => Some(AttributeKind::UnsignedByte),
            (VertexAttributeDataType::U8, 2) => Some(AttributeKind::UnsignedByte2),
            (VertexAttributeDataType::U8, 3) => Some(AttributeKind::UnsignedByte3),
            (VertexAttributeDataType::U8, 4) => Some(AttributeKind::UnsignedByte4),
            _ => None,
        }
    }

    /// The number of bytes of the attribute.
    pub fn size_bytes(self) -> (bytes: usize)
        ensures
            bytes == self.spec_size_bytes(),
            1 <= bytes <= 16,
    {
        match self {
            AttributeKind::Float => 4,
            AttributeKind::Float2 => 8,
            AttributeKind::Float3 => 12,
            AttributeKind::Float4 => 16,
            AttributeKind::UnsignedByte => 1,
            AttributeKind::UnsignedByte2 => 2,
            AttributeKind::UnsignedByte3 => 3,
            AttributeKind::UnsignedByte4 => 4,
            AttributeKind::UnsignedShort => 2,
            AttributeKind::UnsignedShort2 => 4,
            AttributeKind::UnsignedShort3 => 6,
            AttributeKind::UnsignedShort4 => 8,
            AttributeKind::UnsignedInt => 4,
            AttributeKind::UnsignedInt2 => 8,
            AttributeKind::UnsignedInt3 => 12,
            AttributeKind::UnsignedInt4 => 16,
        }
    }

    /// The data type of the components.
    #[verifier::when_used_as_spec(spec_component_type)]
    pub fn component_type(self) -> (data_type: VertexAttributeDataType)
        ensures
            data_type == self.spec_component_type(),
    {
        match self {
            AttributeKind::Float
            | AttributeKind::Float2
            | AttributeKind::Float3
            | AttributeKind::Float4 => VertexAttributeDataType::F32,
            AttributeKind::UnsignedByte
            | AttributeKind::UnsignedByte2
            | AttributeKind::UnsignedByte3
            | AttributeKind::UnsignedByte4 => VertexAttributeDataType::U8,
            AttributeKind::UnsignedShort
            | AttributeKind::UnsignedShort2
            | AttributeKind::UnsignedShort3
            | AttributeKind::UnsignedShort4 => VertexAttributeDataType::U16,
            AttributeKind::UnsignedInt
            | AttributeKind::UnsignedInt2
            | AttributeKind::UnsignedInt3
            | AttributeKind::UnsignedInt4 => VertexAttributeDataType::U32,
        }
    }

    /// The number of components.
    pub fn length(self) -> (length: usize)
        ensures
            length == self.spec_length(),
            1 <= length <= 4,
    {
        match self {
            AttributeKind::Float
            | AttributeKind::UnsignedByte
            | AttributeKind::UnsignedShort
            | AttributeKind::UnsignedInt => 1,
            AttributeKind::Float2
            | AttributeKind::UnsignedByte2
            | AttributeKind::UnsignedShort2
            | AttributeKind::UnsignedInt2 => 2,
            AttributeKind::Float3
            | AttributeKind::UnsignedByte3
            | AttributeKind::UnsignedShort3
            | AttributeKind::UnsignedInt3 => 3,
            AttributeKind::Float4
            | AttributeKind::UnsignedByte4
            | AttributeKind::UnsignedShort4
            | AttributeKind::UnsignedInt4 => 4,
        }
    }

    /// The kind of an attribute of `size` components of type `data_type`;
    /// `None` unless `size` is one to four.
    pub fn from_components(data_type: VertexAttributeDataType, size: u8) -> (kind: Option<
        AttributeKind,
    >)
        ensures
            kind == AttributeKind::spec_from_components(data_type, size),
            kind is Some <==> 1 <= size <= 4,
            kind matches Some(k) ==> k.spec_component_type() == data_type && k.spec_length()
                == size,
    {
        match (data_type, size) {
            (VertexAttributeDataType::F32, 1) => Some(AttributeKind::Float),
            (VertexAttributeDataType::F32, 2) => Some(AttributeKind::Float2),
            (VertexAttributeDataType::F32, 3) => Some(AttributeKind::Float3),
            (VertexAttributeDataType::F32, 4) => Some(AttributeKind::Float4),
            (VertexAttributeDataType::U32, 1) => Some(AttributeKind::UnsignedInt),
            (VertexAttributeDataType::U32, 2) => Some(AttributeKind::UnsignedInt2),
            (VertexAttributeDataType::U32, 3) => Some(AttributeKind::UnsignedInt3),
            (VertexAttributeDataType::U32, 4) => Some(AttributeKind::UnsignedInt4),
            (VertexAttributeDataType::U16, 1) => Some(AttributeKind::UnsignedShort),
            (VertexAttributeDataType::U16, 2) => Some(AttributeKind::UnsignedShort2),
            (VertexAttributeDataType::U16, 3) => Some(AttributeKind::UnsignedShort3),
            (VertexAttributeDataType::U16, 4) => Some(AttributeKind::UnsignedShort4),
            (VertexAttributeDataType::U8, 1) => Some(AttributeKind::UnsignedByte),
            (VertexAttributeDataType::U8, 2) => Some(AttributeKind::UnsignedByte2),
            (VertexAttributeDataType::U8, 3) => Some(AttributeKind::UnsignedByte3),
            (VertexAttributeDataType::U8, 4) => Some(AttributeKind::UnsignedByte4),
            _ => None,
        }
    }
}

/// One attribute of a vertex, as the GPU is told about it.
#[derive(Clone, Copy, Debug, PartialEq, Eq, Structural)]
pub struct AttributeDefinition {
    pub location: u32,
    pub kind: AttributeKind,
    pub normalized: bool,
    pub divisor: u32,
}

impl AttributeDefinition {
    /// The definition that describes the vertex attribute `attribute` to the
    /// GPU; there is none unless the attribute has one to four components.
    pub open spec fn spec_from_vertex_attribute(attribute: VertexAttribute) -> Option<
        AttributeDefinition,
    > {
        match AttributeKind::spec_from_components(attribute.data_type, attribute.size) {
            Some(kind) => Some(
                AttributeDefinition {
                    location: attribute.shader_location as u32,
                    kind,
                    normalized: false,
                    divisor: 0,
                },
            ),
            None => None,
        }
    }

    /// The definition that describes the vertex attribute `attribute` to the
    /// GPU; `None` unless the attribute has one to four components.
    pub fn from_vertex_attribute(attribute: &VertexAttribute) -> (definition: Option<
        AttributeDefinition,
    >)
        ensures
            definition == AttributeDefinition::spec_from_vertex_attribute(*attribute),
    {
        match AttributeKind::from_components(attribute.data_type, attribute.size) {
            Some(kind) => Some(
                AttributeDefinition {
                    location: attribute.shader_location as u32,
                    kind,
                    normalized: false,
                    divisor: 0,
                },
            ),
            None => None,
        }
    }
}

/// The definitions for the attributes of a vertex buffer, in the order of
/// its layout; `None` when one of the attributes has no definition.
pub fn attribute_definitions(layout: &[VertexAttribute]) -> (definitions: Option<
    Vec<AttributeDefinition>,
>)
    ensures
        match definitions {
            Some(defs) => {
                &&& defs.len() == layout.len()
                &&& forall|i: int|
                    0 <= i < layout.len() ==> AttributeDefinition::spec_from_vertex_attribute(
                        #[trigger] layout[i],
                    ) == Some(defs[i])
            },
            None => exists|i: int|
                0 <= i < layout.len() && AttributeDefinition::spec_from_vertex_attribute(
                    #[trigger] layout[i],
                ) is None,
        },
{
    let mut definitions: Vec<AttributeDefinition> = Vec::new();
    let mut i: usize = 0;
    while i < layout.len()
        invariant
            i <= layout.len(),
            definitions.len() == i,
            forall|j: int|
                0 <= j < i ==> AttributeDefinition::spec_from_vertex_attribute(
                    #[trigger] layout[j],
                ) == Some(definitions[j]),
        decreases layout.len() - i,
    {
        match AttributeDefinition::from_vertex_attribute(&layout[i]) {
            Some(definition) => {
                definitions.push(definition);
            },
            None => {
                assert(AttributeDefinition::spec_from_vertex_attribute(layout[i as int]) is None);
                return None;
            },
        }
        i += 1;
    }
    Some(definitions)
}

/// The number of bytes that the first `count` of `attributes` take together:
/// the offset of the attribute after them.
pub open spec fn spec_attribute_offset(attributes: Seq<AttributeDefinition>, count: nat) -> nat
    decreases count,
{
    if count == 0 || count > attributes.len() {
        0
    } else {
        spec_attribute_offset(attributes, (count - 1) as nat) + attributes[count
            - 1].kind.spec_size_bytes()
    }
}

/// The offsets never decrease from attribute to attribute.
pub proof fn lemma_attribute_offset_monotonic(
    attributes: Seq<AttributeDefinition>,
    a: nat,
    b: nat,
)
    requires
        a <= b <= attributes.len(),
    ensures
        spec_attribute_offset(attributes, a) <= spec_attribute_offset(attributes, b),
    decreases b,
{
    if a < b {
        lemma_attribute_offset_monotonic(attributes, a, (b - 1) as nat);
    }
}

/// Lays the attributes out one after the other within an element of
/// `element_size` bytes, and returns the offset of each. Attributes that
/// take more room than the element has are refused.
pub fn attribute_offsets(attributes: &[AttributeDefinition], element_size: usize) -> (offsets:
    Result<Vec<usize>, FrameworkError>)
    ensures
        match offsets {
            Ok(offsets) => {
                &&& spec_attribute_offset(attributes@, attributes@.len()) <= element_size
                &&& offsets.len() == attributes.len()
                &&& forall|i: int|
                    0 <= i < offsets.len() ==> #[trigger] offsets[i] == spec_attribute_offset(
                        attributes@,
                        i as nat,
                    )
            },
            Err(e) => {
                &&& spec_attribute_offset(attributes@, attributes@.len()) > element_size
                &&& e == FrameworkError::InvalidAttributeDescriptor
            },
        },
{
    let mut offsets: Vec<usize> = Vec::new();
    let mut offset: usize = 0;
    let mut i: usize = 0;
    while i < attributes.len()
        invariant
            i <= attributes.len(),
            offsets.len() == i,
            offset == spec_attribute_offset(attributes@, i as nat),
            offset <= element_size,
            forall|j: int|
                0 <= j < i ==> #[trigger] offsets[j] == spec_attribute_offset(
                    attributes@,
                    j as nat,
                ),
        decreases attributes.len() - i,
    {
        proof {
            lemma_attribute_offset_monotonic(attributes@, (i + 1) as nat, attributes@.len());
        }
        let size = attributes[i].kind.size_bytes();
        let next = match offset.checked_add(size) {
            Some(next) => next,
            None => {
                return Err(FrameworkError::InvalidAttributeDescriptor);
            },
        };
        if next > element_size {
            return Err(FrameworkError::InvalidAttributeDescriptor);
        }
        offsets.push(offset);
        offset = next;
        i += 1;
    }
    Ok(offsets)
}

/// How new data gets into a buffer on the GPU.
#[derive(Clone, Copy, Debug, PartialEq, Eq, Structural)]
pub enum BufferUpload {
    /// The buffer is too small: it is allocated anew with the data.
    Reallocate,
    /// The data fits: it is written over the beginning of the buffer.
    Update,
}

/// How `len` elements of `element_size` bytes each get into a buffer that
/// holds `size_bytes` bytes: the number of bytes of the data, and whether the
/// buffer has to be allocated anew for them. `None` when the data is larger
/// than any buffer.
pub fn plan_upload(size_bytes: usize, len: usize, element_size: usize) -> (plan: Option<
    (usize, BufferUpload),
>)
    ensures
        match plan {
            Some((size, upload)) => {
                &&& size == len * element_size
                &&& upload == if size_bytes < size {
                    BufferUpload::Reallocate
                } else {
                    BufferUpload::Update
                }
            },
            None => len * element_size > usize::MAX,
        },
{
    match len.checked_mul(element_size) {
        Some(size) => Some(
            (
                size,
                if size_bytes < size {
                    BufferUpload::Reallocate
                } else {
                    BufferUpload::Update
                },
            ),
        ),
        None => None,
    }
}

/// The size of a kind is the size of its components times their number.
pub proof fn lemma_attribute_kind_size(kind: AttributeKind)
    ensures
        kind.spec_size_bytes() == kind.spec_length() * (kind.spec_component_type().spec_size()
            as nat),
        AttributeKind::spec_from_components(
            kind.spec_component_type(),
            kind.spec_length() as u8,
        ) == Some(kind),
{
}

} // verus!
