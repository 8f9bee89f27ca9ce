//! The layout of the vertices of static meshes.

use crate::systems::mesh::buffer::VertexAttribute;
use crate::systems::mesh::buffer::VertexAttributeDataType;
use crate::systems::mesh::buffer::VertexAttributeUsage;
use vstd::prelude::*;

verus! {

/// One attribute of a vertex, before it has a place in the vertex.
#[derive(Clone, Copy, Debug, PartialEq, Eq, Structural)]
pub struct VertexAttributeDescriptor {
    /// What the attribute is used for.
    pub usage: VertexAttributeUsage,
    /// Data type of every component of the attribute.
    pub data_type: VertexAttributeDataType,
    /// Number of components of the attribute.
    pub size: u8,
    /// The rate at which the vertex shader reads the attribute.
    pub divisor: u8,
    /// Location of the attribute in a shader.
    pub shader_location: u8,
}

impl VertexAttributeDescriptor {
    /// The number of bytes that the attribute takes in a vertex.
    pub open spec fn spec_size_bytes(self) -> nat {
        (self.size * self.data_type.spec_size()) as nat
    }

    /// The attribute at the given offset within the vertex.
    pub open spec fn at_offset(self, offset: u8) -> VertexAttribute {
        VertexAttribute {
            usage: self.usage,
            data_type: self.data_type,
            size: self.size,
            divisor: self.divisor,
            offset,
            shader_location: self.shader_location,
        }
    }
}

/// The number of bytes that the first `count` of `descriptors` take
/// together.
pub open spec fn spec_descriptor_offset(descriptors: Seq<VertexAttributeDescriptor>, count: nat) -> nat
    decreases count,
{
    if count == 0 || count > descriptors.len() {
        0
    } else {
        spec_descriptor_offset(descriptors, (count - 1) as nat) + descriptors[count
            - 1].spec_size_bytes()
    }
}

/// The sizes add up from attribute to attribute.
pub proof fn lemma_descriptor_offset_monotonic(
    descriptors: Seq<VertexAttributeDescriptor>,
    a: nat,
    b: nat,
)
    requires
        a <= b <= descriptors.len(),
    ensures
        spec_descriptor_offset(descriptors, a) <= spec_descriptor_offset(descriptors, b),
    decreases b,
{
    if a < b {
        lemma_descriptor_offset_monotonic(descriptors, a, (b - 1) as nat);
    }
}

/// The layout of a vertex.
pub struct VertexLayout {
    /// The attributes, each at its offset.
    pub attributes: Vec<VertexAttribute>,
    /// Size of one vertex, in bytes.
    pub vertex_size: u8,
}

/// Packs the attributes one after the other into a vertex. `None` when the
/// vertex would take more than 255 bytes.
pub fn pack_attributes(descriptors: &[VertexAttributeDescriptor]) -> (layout: Option<VertexLayout>)
    ensures
        match layout {
            Some(l) => {
                &&& spec_descriptor_offset(descriptors@, descriptors@.len()) <= 255
                &&& l.vertex_size == spec_descriptor_offset(descriptors@, descriptors@.len())
                &&& l.attributes.len() == descriptors.len()
                &&& forall|i: int|
                    0 <= i < descriptors.len() ==> #[trigger] l.attributes[i]
                        == descriptors[i].at_offset(
                        spec_descriptor_offset(descriptors@, i as nat) as u8,
                    )
            },
            None => spec_descriptor_offset(descriptors@, descriptors@.len()) > 255,
        },
{
    let mut attributes: Vec<VertexAttribute> = Vec::new();
    let mut offset: u8 = 0;
    let mut i: usize = 0;
    while i < descriptors.len()
        invariant
            i <= descriptors.len(),
            attributes.len() == i,
            offset == spec_descriptor_offset(descriptors@, i as nat),
            forall|j: int|
                0 <= j < i ==> #[trigger] attributes[j] == descriptors[j].at_offset(
                    spec_descriptor_offset(descriptors@, j as nat) as u8,
                ),
        decreases descriptors.len() - i,
    {
        proof {
            lemma_descriptor_offset_monotonic(descriptors@, (i + 1) as nat, descriptors@.len());
        }
        let descriptor = descriptors[i];
        assert(descriptor.size * descriptor.data_type.spec_size() <= 255 * 4) by (nonlinear_arith)
            requires
                descriptor.size <= 255,
                descriptor.data_type.spec_size() <= 4,
        ;
        let size: u16 = (descriptor.size as u16) * (descriptor.data_type.size() as u16);
        let next: u16 = offset as u16 + size;
        if next > 255 {
            return None;
        }
        attributes.push(
            VertexAttribute {
                usage: descriptor.usage,
                data_type: descriptor.data_type,
                size: descriptor.size,
                divisor: descriptor.divisor,
                offset,
                shader_location: descriptor.shader_location,
            },
        );
        offset = next as u8;
        i += 1;
    }
    Some(VertexLayout { attributes, vertex_size: offset })
}

/// The attributes of the vertices of static meshes: position, texture
/// coordinates, normal and tangent, all of 32-bit floats.
pub fn static_vertex_layout() -> (layout: [VertexAttributeDescriptor; 4])
    ensures
        layout[0] == (VertexAttributeDescriptor {
            usage: VertexAttributeUsage::Position,
            data_type: VertexAttributeDataType::F32,
            size: 3,
            divisor: 0,
            shader_location: 0,
        }),
        layout[1] == (VertexAttributeDescriptor {
            usage: VertexAttributeUsage::TexCoord0,
            data_type: VertexAttributeDataType::F32,
            size: 2,
            divisor: 0,
            shader_location: 1,
        }),
        layout[2] == (VertexAttributeDescriptor {
            usage: VertexAttributeUsage::Normal,
            data_type: VertexAttributeDataType::F32,
            size: 3,
            divisor: 0,
            shader_location: 2,
        }),
        layout[3] == (VertexAttributeDescriptor {
            usage: VertexAttributeUsage::Tangent,
            data_type: VertexAttributeDataType::F32,
            size: 4,
            divisor: 0,
            shader_location: 3,
        }),
{
    [
        VertexAttributeDescriptor {
            usage: VertexAttributeUsage::Position,
            data_type: VertexAttributeDataType::F32,
            size: 3,
            divisor: 0,
            shader_location: 0,
        },
        VertexAttributeDescriptor {
            usage: VertexAttributeUsage::TexCoord0,
            data_type: VertexAttributeDataType::F32,
            size: 2,
            divisor: 0,
            shader_location: 1,
        },
        VertexAttributeDescriptor {
            usage: VertexAttributeUsage::Normal,
            data_type: VertexAttributeDataType::F32,
            size: 3,
            divisor: 0,
            shader_location: 2,
        },
        VertexAttributeDescriptor {
            usage: VertexAttributeUsage::Tangent,
            data_type: VertexAttributeDataType::F32,
            size: 4,
            divisor: 0,
            shader_location: 3,
        },
    ]
}

/// A static vertex takes 48 bytes: its attributes start at the bytes 0, 12,
/// 20 and 32.
pub proof fn lemma_static_vertex_size(layout: Seq<VertexAttributeDescriptor>)
    requires
        layout.len() == 4,
        layout[0].spec_size_bytes() == 12,
        layout[1].spec_size_bytes() == 8,
        layout[2].spec_size_bytes() == 12,
        layout[3].spec_size_bytes() == 16,
    ensures
        spec_descriptor_offset(layout, 0) == 0,
        spec_descriptor_offset(layout, 1) == 12,
        spec_descriptor_offset(layout, 2) == 20,
        spec_descriptor_offset(layout, 3) == 32,
        spec_descriptor_offset(layout, 4) == 48,
{
    reveal_with_fuel(spec_descriptor_offset, 5);
}

} // verus!
