use pf_engine::systems::mesh::SurfaceData;
use pf_engine::systems::mesh::TriangleBuffer;
use pf_engine::systems::mesh::VertexAttribute;
use pf_engine::systems::mesh::VertexAttributeDataType;
use pf_engine::systems::mesh::VertexAttributeUsage;
use pf_engine::systems::mesh::VertexBuffer;

fn position() -> VertexAttribute {
    VertexAttribute {
        usage: VertexAttributeUsage::Position,
        data_type: VertexAttributeDataType::F32,
        size: 3,
        divisor: 0,
        offset: 0,
        shader_location: 0,
    }
}

#[test]
fn vertex_buffer_holds_whole_vertices() {
    let buffer = VertexBuffer::new(12, 2, vec![position()], vec![7; 24], 99).unwrap();
    assert_eq!(buffer.vertex_size(), 12);
    assert_eq!(buffer.vertex_count(), 2);
    assert_eq!(buffer.layout(), &[position()]);
    assert_eq!(buffer.raw_data(), &[7u8; 24]);
    assert_eq!(buffer.data_hash(), 99);
    assert!(VertexBuffer::new(12, 2, vec![position()], vec![7; 23], 99).is_none());
    assert!(VertexBuffer::new(12, 2, vec![position()], vec![], 99).is_none());
    assert!(VertexBuffer::new(0, 5, vec![], vec![], 0).is_some());
    assert!(VertexBuffer::new(255, 0, vec![], vec![], 0).is_some());
    assert!(VertexBuffer::new(255, 1, vec![], vec![0; 255], 0).is_some());
}

#[test]
fn clearing_a_vertex_buffer_keeps_its_layout() {
    let mut buffer = VertexBuffer::new(12, 2, vec![position()], vec![7; 24], 99).unwrap();
    buffer.clear();
    assert_eq!(buffer.vertex_size(), 12);
    assert_eq!(buffer.vertex_count(), 0);
    assert_eq!(buffer.layout(), &[position()]);
    assert!(buffer.raw_data().is_empty());
    assert_eq!(buffer.data_hash(), 0);
}

#[test]
fn triangle_buffer() {
    let mut triangles = TriangleBuffer::new(vec![[0, 1, 2], [0, 2, 3]], 17);
    assert_eq!(triangles.len(), 2);
    assert_eq!(triangles.triangles_ref(), &[[0, 1, 2], [0, 2, 3]]);
    assert_eq!(triangles.data_hash(), 17);
    triangles.clear();
    assert_eq!(triangles.len(), 0);
    assert_eq!(triangles.data_hash(), 0);
    let empty = TriangleBuffer::default();
    assert_eq!(empty.len(), 0);
    assert_eq!(empty.data_hash(), 0);
}

fn combine(lhs: u64, rhs: u64) -> u64 {
    lhs ^ (rhs.wrapping_add(0x9e3779b9).wrapping_add(lhs << 6).wrapping_add(lhs >> 2))
}

#[test]
fn content_hash_combines_the_two_hashes() {
    for (geometry, vertices) in [
        (0u64, 0u64),
        (1, 2),
        (17, 99),
        (u64::MAX, u64::MAX),
        (0x8000_0000_0000_0000, 0xffff_ffff_0000_0000),
    ] {
        let data = SurfaceData::new(
            VertexBuffer::new(0, 0, vec![], vec![], vertices).unwrap(),
            TriangleBuffer::new(vec![], geometry),
            true,
        );
        assert_eq!(data.content_hash(), combine(geometry, vertices));
        assert_eq!(data.content_hash(), rg3d_core::hash_combine(geometry, vertices));
    }
    let data = SurfaceData::new(
        VertexBuffer::new(0, 0, vec![], vec![], 2).unwrap(),
        TriangleBuffer::new(vec![], 1),
        false,
    );
    assert_eq!(data.content_hash(), 0x9e3779fa);
    assert_ne!(data.content_hash(), 1);
    assert_ne!(data.content_hash(), 2);
}

#[test]
fn clearing_a_surface_clears_both_buffers() {
    let mut data = SurfaceData::new(
        VertexBuffer::new(12, 2, vec![position()], vec![7; 24], 99).unwrap(),
        TriangleBuffer::new(vec![[0, 1, 0]], 17),
        true,
    );
    assert!(data.is_procedural());
    data.clear();
    assert!(data.is_procedural());
    assert_eq!(data.vertex_buffer.vertex_count(), 0);
    assert_eq!(data.vertex_buffer.vertex_size(), 12);
    assert!(data.vertex_buffer.raw_data().is_empty());
    assert_eq!(data.geometry_buffer.len(), 0);
    assert_eq!(data.content_hash(), combine(0, 0));
    assert_eq!(data.content_hash(), 0x9e3779b9);
}
