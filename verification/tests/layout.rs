use pf_engine::asset_server::debug_loader::DebugLoader;
use pf_engine::asset_server::AssetPathId;
use pf_engine::asset_server::AssetServer;
use pf_engine::asset_server::Assets;
use pf_engine::asset_server::Handle;
use pf_engine::asset_server::HandleId;
use pf_engine::render::geometry_buffer::draw_arguments;
use pf_engine::render::geometry_buffer::DrawArguments;
use pf_engine::render::geometry_buffer::IndexRange;
use pf_engine::render::native_buffer::plan_upload;
use pf_engine::render::native_buffer::BufferUpload;
use pf_engine::render::BlendFactor;
use pf_engine::render::BlendFunc;
use pf_engine::render::CompareFunc;
use pf_engine::render::CullFace;
use pf_engine::render::DrawCallStatistics;
use pf_engine::systems::mesh::vertex::pack_attributes;
use pf_engine::systems::mesh::vertex::static_vertex_layout;
use pf_engine::systems::mesh::VertexAttribute;
use pf_engine::systems::mesh::VertexAttributeDataType;
use pf_engine::systems::mesh::VertexAttributeDescriptor;
use pf_engine::systems::mesh::VertexAttributeUsage;

#[test]
fn static_vertices_take_48_bytes() {
    let descriptors = static_vertex_layout();
    assert_eq!(descriptors[0].usage, VertexAttributeUsage::Position);
    assert_eq!(descriptors[1].usage, VertexAttributeUsage::TexCoord0);
    assert_eq!(descriptors[2].usage, VertexAttributeUsage::Normal);
    assert_eq!(descriptors[3].usage, VertexAttributeUsage::Tangent);
    let layout = pack_attributes(&descriptors).unwrap();
    assert_eq!(layout.vertex_size, 48);
    let offsets: Vec<u8> = layout.attributes.iter().map(|a| a.offset).collect();
    assert_eq!(offsets, vec![0, 12, 20, 32]);
    let sizes: Vec<u8> = layout.attributes.iter().map(|a| a.size).collect();
    assert_eq!(sizes, vec![3, 2, 3, 4]);
    let locations: Vec<u8> = layout.attributes.iter().map(|a| a.shader_location).collect();
    assert_eq!(locations, vec![0, 1, 2, 3]);
    assert_eq!(
        layout.attributes[1],
        VertexAttribute {
            usage: VertexAttributeUsage::TexCoord0,
            data_type: VertexAttributeDataType::F32,
            size: 2,
            divisor: 0,
            offset: 12,
            shader_location: 1,
        }
    );
}

fn bytes(size: u8) -> VertexAttributeDescriptor {
    VertexAttributeDescriptor {
        usage: VertexAttributeUsage::TexCoord7,
        data_type: VertexAttributeDataType::U8,
        size,
        divisor: 1,
        shader_location: 9,
    }
}

#[test]
fn a_vertex_has_at_most_255_bytes() {
    let layout = pack_attributes(&[bytes(200), bytes(55)]).unwrap();
    assert_eq!(layout.vertex_size, 255);
    assert_eq!(layout.attributes[1].offset, 200);
    assert_eq!(layout.attributes[1].divisor, 1);
    assert!(pack_attributes(&[bytes(200), bytes(56)]).is_none());
    assert!(pack_attributes(&[bytes(255), bytes(255), bytes(255)]).is_none());
    let wide = VertexAttributeDescriptor { data_type: VertexAttributeDataType::U32, ..bytes(64) };
    assert!(pack_attributes(&[wide]).is_none());
    let empty = pack_attributes(&[]).unwrap();
    assert_eq!(empty.vertex_size, 0);
    assert!(empty.attributes.is_empty());
    let zero = pack_attributes(&[bytes(0), bytes(3)]).unwrap();
    assert_eq!(zero.attributes[1].offset, 0);
    assert_eq!(zero.vertex_size, 3);
}

#[test]
fn pipeline_defaults() {
    assert_eq!(CompareFunc::default(), CompareFunc::LessOrEqual);
    assert_eq!(CullFace::default(), CullFace::Back);
    assert_eq!(BlendFactor::default(), BlendFactor::Zero);
    assert_eq!(
        BlendFunc::default(),
        BlendFunc { sfactor: BlendFactor::One, dfactor: BlendFactor::Zero }
    );
}

#[test]
fn instanced_draws_count_every_instance() {
    assert_eq!(DrawCallStatistics::instanced(12, 5), DrawCallStatistics { triangles: 60 });
    assert_eq!(DrawCallStatistics::instanced(12, 0), DrawCallStatistics { triangles: 0 });
}

#[test]
fn assets_can_be_changed_in_place() {
    let mut store: Assets<String> = Assets::new();
    let a = HandleId(AssetPathId(1));
    let b = HandleId(AssetPathId(2));
    store.insert(a, "first".to_string());
    store.insert(b, "other".to_string());
    assert!(store.get_mut(&HandleId(AssetPathId(3))).is_none());
    store.get_mut(&a).unwrap().push_str(" and more");
    assert_eq!(store.get(&a), Some(&"first and more".to_string()));
    assert_eq!(store.get(&b), Some(&"other".to_string()));
    let handle: Handle<String> = Handle::weak(b);
    *store.get_asset_mut(&handle).unwrap() = "replaced".to_string();
    assert_eq!(store.get_asset(&handle), Some(&"replaced".to_string()));
    assert_eq!(store.get(&a), Some(&"first and more".to_string()));
    assert!(store.get_asset_mut(&Handle::weak(HandleId(AssetPathId(3)))).is_none());
}

#[test]
fn the_default_server_is_a_new_server() {
    let server: AssetServer<DebugLoader> = AssetServer::default();
    assert_eq!(server.pending_changes(), 0);
    assert_eq!(server.find_loader("dbg"), None);
    assert_eq!(server.ref_count(HandleId(AssetPathId(1))), 0);
}

#[test]
fn uploads_reallocate_only_when_the_buffer_is_too_small() {
    assert_eq!(plan_upload(100, 10, 12), Some((120, BufferUpload::Reallocate)));
    assert_eq!(plan_upload(120, 10, 12), Some((120, BufferUpload::Update)));
    assert_eq!(plan_upload(121, 10, 12), Some((120, BufferUpload::Update)));
    assert_eq!(plan_upload(0, 0, 12), Some((0, BufferUpload::Update)));
    assert_eq!(plan_upload(0, usize::MAX, 2), None);
}

#[test]
fn draw_arguments_fit_32_bits() {
    assert_eq!(
        draw_arguments(IndexRange { start_index: 6, index_count: 15 }),
        Some(DrawArguments { count: 15, offset: 24 })
    );
    assert_eq!(
        draw_arguments(IndexRange { start_index: 0, index_count: i32::MAX as usize }),
        Some(DrawArguments { count: i32::MAX, offset: 0 })
    );
    assert_eq!(
        draw_arguments(IndexRange { start_index: 0, index_count: i32::MAX as usize + 1 }),
        None
    );
    assert_eq!(
        draw_arguments(IndexRange { start_index: i32::MAX as usize / 4, index_count: 1 }),
        Some(DrawArguments { count: 1, offset: i32::MAX - 3 })
    );
    assert_eq!(
        draw_arguments(IndexRange { start_index: i32::MAX as usize / 4 + 1, index_count: 1 }),
        None
    );
}
