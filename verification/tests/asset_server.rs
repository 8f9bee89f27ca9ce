use pf_engine::asset_server::asset_ref_counter::DEFAULT_CHANNEL_CAPACITY;
use pf_engine::asset_server::debug_loader::DebugAsset;
use pf_engine::asset_server::debug_loader::DebugLoader;
use pf_engine::asset_server::debug_loader::DEBUG_ASSET_TYPE_ID;
use pf_engine::asset_server::Asset;
use pf_engine::asset_server::AssetError;
use pf_engine::asset_server::AssetLifecycle;
use pf_engine::asset_server::AssetLifecycleEvent;
use pf_engine::asset_server::AssetLoader;
use pf_engine::asset_server::AssetPath;
use pf_engine::asset_server::AssetPathId;
use pf_engine::asset_server::AssetRefCounter;
use pf_engine::asset_server::AssetServer;
use pf_engine::asset_server::AssetTypeId;
use pf_engine::asset_server::Assets;
use pf_engine::asset_server::Handle;
use pf_engine::asset_server::HandleId;
use pf_engine::asset_server::HandleUntyped;
use pf_engine::asset_server::RefChange;

#[derive(Debug, Clone, PartialEq)]
struct Texture {
    source: String,
}

#[derive(Debug, Clone, PartialEq)]
struct Mesh {
    source: String,
}

enum Payload {
    Texture(Texture),
    Mesh(Mesh),
}

const TEXTURE_TYPE: u128 = 0x39cadc56_aa9c_4543_8640_a018b74b5053;
// Differs from TEXTURE_TYPE in its highest bit only.
const MESH_TYPE: u128 = 0xb9cadc56_aa9c_4543_8640_a018b74b5053;

impl Asset<Payload> for Texture {
    const TYPE_UUID: u128 = TEXTURE_TYPE;

    fn downcast(payload: Payload) -> Option<Texture> {
        match payload {
            Payload::Texture(texture) => Some(texture),
            _ => None,
        }
    }
}

impl Asset<Payload> for Mesh {
    const TYPE_UUID: u128 = MESH_TYPE;

    fn downcast(payload: Payload) -> Option<Mesh> {
        match payload {
            Payload::Mesh(mesh) => Some(mesh),
            _ => None,
        }
    }
}

enum Loader {
    Texture(Vec<&'static str>),
    Mesh(Vec<&'static str>),
}

impl AssetLoader for Loader {
    type Payload = Payload;

    fn extensions(&self) -> &[&str] {
        match self {
            Loader::Texture(exts) | Loader::Mesh(exts) => exts.as_slice(),
        }
    }

    fn load(&self, asset_path: &AssetPath) -> Payload {
        match self {
            Loader::Texture(_) => Payload::Texture(Texture { source: asset_path.path() }),
            Loader::Mesh(_) => Payload::Mesh(Mesh { source: asset_path.path() }),
        }
    }
}

fn path(p: &str) -> AssetPath {
    AssetPath::new(p.to_string(), None)
}

fn id_of(p: &str) -> HandleId {
    HandleId(path(p).get_id())
}

fn texture_server() -> (AssetServer<Loader>, Assets<Texture>) {
    let mut server = AssetServer::new();
    let textures = server.register_asset::<Texture>().unwrap();
    server.add_loader(Loader::Texture(vec!["tex"])).unwrap();
    (server, textures)
}

#[test]
fn a_new_server_is_empty() {
    let server: AssetServer<Loader> = AssetServer::new();
    assert_eq!(server.pending_changes(), 0);
    assert_eq!(server.ref_count(id_of("foo.tex")), 0);
    assert!(!server.is_registered(AssetTypeId(TEXTURE_TYPE)));
    assert_eq!(server.source_type(path("foo.tex").get_id()), None);
    assert_eq!(server.find_loader("tex"), None);
    assert_eq!(DEFAULT_CHANNEL_CAPACITY, 100);
}

#[test]
fn registering_a_type_twice_fails() {
    let mut server: AssetServer<Loader> = AssetServer::new();
    assert!(server.register_asset::<Texture>().is_ok());
    assert!(server.is_registered(AssetTypeId(TEXTURE_TYPE)));
    let again = server.register_asset::<Texture>();
    assert_eq!(again.err(), Some(AssetError::DuplicateAssetType(AssetTypeId(TEXTURE_TYPE))));
    assert!(server.register_asset::<Mesh>().is_ok());
    let again = server.register_asset_with_capacity::<Mesh>(3);
    assert_eq!(again.err(), Some(AssetError::DuplicateAssetType(AssetTypeId(MESH_TYPE))));
}

#[test]
fn a_loader_for_a_claimed_extension_is_refused() {
    let mut server: AssetServer<Loader> = AssetServer::new();
    assert_eq!(server.add_loader(Loader::Texture(vec!["tex", "png"])), Ok(()));
    assert_eq!(
        server.add_loader(Loader::Mesh(vec!["mesh", "png"])),
        Err(AssetError::DuplicateExtension)
    );
    assert_eq!(server.find_loader("mesh"), None);
    assert_eq!(server.add_loader(Loader::Mesh(vec!["mesh", "obj"])), Ok(()));
    assert_eq!(server.find_loader("tex"), Some(0));
    assert_eq!(server.find_loader("png"), Some(0));
    assert_eq!(server.find_loader("mesh"), Some(1));
    assert_eq!(server.find_loader("obj"), Some(1));
    assert_eq!(server.find_loader("te"), None);
    assert_eq!(
        server.add_loader(Loader::Texture(vec!["obj"])),
        Err(AssetError::DuplicateExtension)
    );
}

#[test]
fn the_first_loader_of_a_server_is_always_accepted() {
    for exts in [vec![], vec!["tex"], vec!["tex", "tex", ""], vec!["a", "b", "c"]] {
        let mut server: AssetServer<Loader> = AssetServer::new();
        assert_eq!(server.add_loader(Loader::Texture(exts)), Ok(()));
    }
}

#[test]
fn load_asks_the_loader_that_declares_the_extension() {
    let mut server: AssetServer<Loader> = AssetServer::new();
    let mut textures = server.register_asset::<Texture>().unwrap();
    let mut meshes = server.register_asset::<Mesh>().unwrap();
    server.add_loader(Loader::Mesh(vec!["mesh"])).unwrap();
    server.add_loader(Loader::Texture(vec!["tex"])).unwrap();
    let texture = server.load::<Texture>(&path("a.tex"), &mut textures).unwrap();
    assert_eq!(textures.get_asset(&texture), Some(&Texture { source: "a.tex".to_string() }));
    let mesh = server.load::<Mesh>(&path("b.mesh"), &mut meshes).unwrap();
    assert_eq!(meshes.get_asset(&mesh), Some(&Mesh { source: "b.mesh".to_string() }));
}

#[test]
fn a_loader_may_name_an_extension_twice() {
    let mut server: AssetServer<Loader> = AssetServer::new();
    assert_eq!(server.add_loader(Loader::Texture(vec!["tex", "tex"])), Ok(()));
    assert_eq!(server.add_loader(Loader::Mesh(vec![])), Ok(()));
    assert_eq!(server.find_loader("tex"), Some(0));
    assert_eq!(
        server.add_loader_for(Loader::Mesh(vec!["ignored"]), vec!["mesh".to_string()]),
        Ok(())
    );
    assert_eq!(server.find_loader("mesh"), Some(2));
    assert_eq!(server.find_loader("ignored"), None);
    assert_eq!(
        server.add_loader_for(Loader::Mesh(vec![]), vec!["obj".to_string(), "tex".to_string()]),
        Err(AssetError::DuplicateExtension)
    );
    assert_eq!(server.find_loader("obj"), None);
}

#[test]
fn load_without_a_loader_for_the_extension_changes_nothing() {
    let (mut server, mut textures) = texture_server();
    for p in ["foo.png", "foo", ".tex", "dir.tex/foo"] {
        let loaded = server.load::<Texture>(&path(p), &mut textures);
        assert_eq!(loaded.err(), Some(AssetError::NoLoaderForExtension));
        assert!(AssetError::NoLoaderForExtension.is_lookup_error());
        assert_eq!(server.pending_changes(), 0);
        assert_eq!(server.source_type(path(p).get_id()), None);
        assert!(!textures.contains(id_of(p)));
        assert_eq!(server.ref_count(id_of(p)), 0);
    }
}

#[test]
fn load_of_an_unregistered_type_changes_nothing() {
    let (mut server, _textures) = texture_server();
    server.add_loader(Loader::Mesh(vec!["mesh"])).unwrap();
    let mut meshes: Assets<Mesh> = Assets::new();
    let loaded = server.load::<Mesh>(&path("ship.mesh"), &mut meshes);
    assert_eq!(loaded.err(), Some(AssetError::AssetTypeNotRegistered(AssetTypeId(MESH_TYPE))));
    assert_eq!(server.pending_changes(), 0);
    assert!(!meshes.contains(id_of("ship.mesh")));
    assert_eq!(server.source_type(path("ship.mesh").get_id()), None);
}

#[test]
fn load_as_another_type_than_the_loader_makes_changes_nothing() {
    let (mut server, _textures) = texture_server();
    let mut meshes = server.register_asset::<Mesh>().unwrap();
    let loaded = server.load::<Mesh>(&path("foo.tex"), &mut meshes);
    assert_eq!(loaded.err(), Some(AssetError::AssetTypeMismatch));
    assert_eq!(server.pending_changes(), 0);
    assert!(!meshes.contains(id_of("foo.tex")));
    assert_eq!(server.source_type(path("foo.tex").get_id()), None);
}

#[test]
fn load_on_a_full_channel_changes_nothing() {
    let mut server: AssetServer<Loader> = AssetServer::with_capacity(1);
    let mut textures = server.register_asset::<Texture>().unwrap();
    server.add_loader(Loader::Texture(vec!["tex"])).unwrap();
    let first = server.load::<Texture>(&path("a.tex"), &mut textures).unwrap();
    let second = server.load::<Texture>(&path("b.tex"), &mut textures);
    assert_eq!(second.err(), Some(AssetError::ChannelFull));
    assert!(AssetError::ChannelFull.is_backpressure());
    assert!(!textures.contains(id_of("b.tex")));
    assert_eq!(server.source_type(path("b.tex").get_id()), None);
    assert_eq!(server.pending_changes(), 1);
    server.free_unused_assets_system().unwrap();
    let second = server.load::<Texture>(&path("b.tex"), &mut textures).unwrap();
    assert_eq!(second.id(), id_of("b.tex"));
    assert_eq!(first.id(), id_of("a.tex"));
}

#[test]
fn load_stores_the_asset_and_counts_one_owner() {
    let (mut server, mut textures) = texture_server();
    let handle = server.load::<Texture>(&path("foo.tex"), &mut textures).unwrap();
    assert!(handle.is_strong());
    assert_eq!(handle.id(), id_of("foo.tex"));
    assert_eq!(
        textures.get(&handle.id()),
        Some(&Texture { source: "foo.tex".to_string() })
    );
    assert_eq!(textures.get_asset(&handle), Some(&Texture { source: "foo.tex".to_string() }));
    assert_eq!(
        server.source_type(path("foo.tex").get_id()),
        Some(AssetTypeId(TEXTURE_TYPE))
    );
    assert_eq!(server.pending_changes(), 1);
    assert_eq!(server.ref_count(handle.id()), 0);
    assert_eq!(server.free_unused_assets_system(), Ok(()));
    assert_eq!(server.pending_changes(), 0);
    assert_eq!(server.ref_count(handle.id()), 1);
}

#[test]
fn dropping_the_only_handle_frees_the_asset() {
    let (mut server, mut textures) = texture_server();
    let handle = server.load::<Texture>(&path("foo.tex"), &mut textures).unwrap();
    let id = handle.id();
    server.free_unused_assets_system().unwrap();
    assert_eq!(server.ref_count(id), 1);
    assert!(textures.contains(id));

    assert!(handle.release(server.sender()).is_ok());
    assert_eq!(server.free_unused_assets_system(), Ok(()));
    assert_eq!(server.ref_count(id), 0);
    assert!(textures.contains(id));
    textures.free_unused_assets(&mut server);
    assert!(!textures.contains(id));
    assert_eq!(textures.get(&id), None);
    assert_eq!(server.next_free_event(AssetTypeId(TEXTURE_TYPE)), None);
}

#[test]
fn two_loads_of_one_path_are_two_owners() {
    let (mut server, mut textures) = texture_server();
    let first = server.load::<Texture>(&path("foo.tex"), &mut textures).unwrap();
    let second = server.load::<Texture>(&path("foo.tex"), &mut textures).unwrap();
    let id = first.id();
    assert_eq!(second.id(), id);
    server.free_unused_assets_system().unwrap();
    assert_eq!(server.ref_count(id), 2);

    assert!(first.release(server.sender()).is_ok());
    server.free_unused_assets_system().unwrap();
    assert_eq!(server.ref_count(id), 1);
    textures.free_unused_assets(&mut server);
    assert!(textures.contains(id));

    assert!(second.release(server.sender()).is_ok());
    server.free_unused_assets_system().unwrap();
    assert_eq!(server.ref_count(id), 0);
    textures.free_unused_assets(&mut server);
    assert!(!textures.contains(id));
}

#[test]
fn clone_and_two_releases_free_once() {
    let (mut server, mut textures) = texture_server();
    let handle = server.load::<Texture>(&path("foo.tex"), &mut textures).unwrap();
    let id = handle.id();
    server.free_unused_assets_system().unwrap();
    assert_eq!(server.ref_count(id), 1);

    let clone = handle.clone_handle(server.sender()).unwrap();
    assert!(handle.release(server.sender()).is_ok());
    assert!(clone.release(server.sender()).is_ok());
    assert_eq!(server.pending_changes(), 3);
    server.free_unused_assets_system().unwrap();
    assert_eq!(server.ref_count(id), 0);
    assert_eq!(
        server.next_free_event(AssetTypeId(TEXTURE_TYPE)),
        Some(AssetLifecycleEvent::Free(id))
    );
    assert_eq!(server.next_free_event(AssetTypeId(TEXTURE_TYPE)), None);
}

#[test]
fn weak_handles_do_not_change_any_count() {
    let (mut server, mut textures) = texture_server();
    let handle = server.load::<Texture>(&path("foo.tex"), &mut textures).unwrap();
    let id = handle.id();
    server.free_unused_assets_system().unwrap();
    let weak = handle.clone_weak();
    let weak_again = weak.clone_handle(server.sender()).unwrap();
    assert!(weak.release(server.sender()).is_ok());
    assert!(weak_again.release(server.sender()).is_ok());
    assert_eq!(server.pending_changes(), 0);
    server.free_unused_assets_system().unwrap();
    assert_eq!(server.ref_count(id), 1);
    assert_eq!(textures.get_asset(&Handle::weak(id)), Some(&Texture { source: "foo.tex".to_string() }));
}

#[test]
fn free_goes_to_the_store_of_the_type_that_was_loaded() {
    let mut server: AssetServer<Loader> = AssetServer::new();
    let mut textures = server.register_asset::<Texture>().unwrap();
    let mut meshes = server.register_asset::<Mesh>().unwrap();
    server.add_loader(Loader::Texture(vec!["tex"])).unwrap();
    server.add_loader(Loader::Mesh(vec!["mesh"])).unwrap();
    assert_eq!(TEXTURE_TYPE as u64, MESH_TYPE as u64);

    let texture = server.load::<Texture>(&path("hull.tex"), &mut textures).unwrap();
    let mesh = server.load::<Mesh>(&path("hull.mesh"), &mut meshes).unwrap();
    let texture_id = texture.id();
    let mesh_id = mesh.id();
    assert_eq!(server.source_type(texture_id.path_id()), Some(AssetTypeId(TEXTURE_TYPE)));
    assert_eq!(server.source_type(mesh_id.path_id()), Some(AssetTypeId(MESH_TYPE)));

    assert!(mesh.release(server.sender()).is_ok());
    server.free_unused_assets_system().unwrap();
    assert_eq!(server.ref_count(mesh_id), 0);
    assert_eq!(server.ref_count(texture_id), 1);

    textures.free_unused_assets(&mut server);
    assert!(textures.contains(texture_id));
    assert!(meshes.contains(mesh_id));
    assert_eq!(
        server.next_free_event(AssetTypeId(MESH_TYPE)),
        Some(AssetLifecycleEvent::Free(mesh_id))
    );
    assert_eq!(server.next_free_event(AssetTypeId(TEXTURE_TYPE)), None);

    assert!(texture.release(server.sender()).is_ok());
    server.free_unused_assets_system().unwrap();
    meshes.free_unused_assets(&mut server);
    assert!(textures.contains(texture_id));
    textures.free_unused_assets(&mut server);
    assert!(!textures.contains(texture_id));
    assert_eq!(meshes.get(&mesh_id), Some(&Mesh { source: "hull.mesh".to_string() }));
}

#[test]
fn a_decrement_below_zero_is_reported_and_stays_in_the_channel() {
    let (mut server, _textures) = texture_server();
    let stray = HandleId(AssetPathId(77));
    assert_eq!(server.sender().try_send(RefChange::Decrement(stray)), Ok(()));
    assert_eq!(server.sender().try_send(RefChange::Increment(stray)), Ok(()));
    assert_eq!(server.free_unused_assets_system(), Err(AssetError::CountUnderflow(stray)));
    assert!(AssetError::CountUnderflow(stray).is_protocol_error());
    assert_eq!(server.pending_changes(), 2);
    assert_eq!(server.ref_count(stray), 0);
    assert_eq!(server.free_unused_assets_system(), Err(AssetError::CountUnderflow(stray)));
}

#[test]
fn a_count_that_reaches_zero_without_a_recorded_type_is_reported() {
    let (mut server, _textures) = texture_server();
    let stray = HandleId(AssetPathId(78));
    let handle: Handle<Texture> = HandleUntyped::strong(stray, server.sender()).unwrap().typed();
    let clone = handle.clone_handle(server.sender()).unwrap();
    assert!(clone.release(server.sender()).is_ok());
    assert!(handle.release(server.sender()).is_ok());
    assert_eq!(server.free_unused_assets_system(), Err(AssetError::MissingSourceInfo(stray)));
    assert_eq!(server.ref_count(stray), 1);
    assert_eq!(server.pending_changes(), 1);
    assert_eq!(
        server.apply_ref_change(RefChange::Decrement(stray)),
        Err(AssetError::MissingSourceInfo(stray))
    );
    assert_eq!(server.ref_count(stray), 1);
}

#[test]
fn apply_ref_change_counts_up_and_down() {
    let (mut server, mut textures) = texture_server();
    let handle = server.load::<Texture>(&path("foo.tex"), &mut textures).unwrap();
    let id = handle.id();
    assert_eq!(server.apply_ref_change(RefChange::Increment(id)), Ok(()));
    assert_eq!(server.apply_ref_change(RefChange::Increment(id)), Ok(()));
    assert_eq!(server.ref_count(id), 2);
    assert_eq!(server.apply_ref_change(RefChange::Decrement(id)), Ok(()));
    assert_eq!(server.ref_count(id), 1);
    assert_eq!(server.next_free_event(AssetTypeId(TEXTURE_TYPE)), None);
    assert_eq!(server.apply_ref_change(RefChange::Decrement(id)), Ok(()));
    assert_eq!(server.ref_count(id), 0);
    assert_eq!(
        server.next_free_event(AssetTypeId(TEXTURE_TYPE)),
        Some(AssetLifecycleEvent::Free(id))
    );
    assert_eq!(
        server.apply_ref_change(RefChange::Decrement(id)),
        Err(AssetError::CountUnderflow(id))
    );
    assert_eq!(server.apply_ref_change(RefChange::Increment(id)), Ok(()));
    assert_eq!(server.ref_count(id), 1);
    assert_eq!(server.pending_changes(), 1);
}

#[test]
fn a_full_lifecycle_queue_holds_the_pass_until_the_store_has_drained_it() {
    let mut server: AssetServer<Loader> = AssetServer::new();
    let mut textures = server.register_asset_with_capacity::<Texture>(1).unwrap();
    server.add_loader(Loader::Texture(vec!["tex"])).unwrap();
    let a = server.load::<Texture>(&path("a.tex"), &mut textures).unwrap();
    let b = server.load::<Texture>(&path("b.tex"), &mut textures).unwrap();
    let (a_id, b_id) = (a.id(), b.id());
    assert!(a.release(server.sender()).is_ok());
    assert!(b.release(server.sender()).is_ok());
    assert_eq!(
        server.free_unused_assets_system(),
        Err(AssetError::LifecycleFull(AssetTypeId(TEXTURE_TYPE)))
    );
    assert_eq!(server.ref_count(a_id), 0);
    assert_eq!(server.ref_count(b_id), 1);
    assert_eq!(server.pending_changes(), 1);
    textures.free_unused_assets(&mut server);
    assert!(!textures.contains(a_id));
    assert!(textures.contains(b_id));
    assert_eq!(server.free_unused_assets_system(), Ok(()));
    assert_eq!(server.ref_count(b_id), 0);
    textures.free_unused_assets(&mut server);
    assert!(!textures.contains(b_id));
}

#[test]
fn complete_load_refuses_a_payload_of_another_type() {
    let (mut server, mut textures) = texture_server();
    let path_id = path("foo.tex").get_id();
    let refused =
        server.complete_load::<Texture>(path_id, AssetTypeId(TEXTURE_TYPE), None, &mut textures);
    assert_eq!(refused.err(), Some(AssetError::AssetTypeMismatch));
    assert_eq!(server.pending_changes(), 0);
    let unregistered = server.complete_load::<Texture>(
        path_id,
        AssetTypeId(1),
        Some(Texture { source: "x".to_string() }),
        &mut textures,
    );
    assert_eq!(unregistered.err(), Some(AssetError::AssetTypeNotRegistered(AssetTypeId(1))));
    let minted = server
        .complete_load::<Texture>(
            path_id,
            AssetTypeId(TEXTURE_TYPE),
            Some(Texture { source: "x".to_string() }),
            &mut textures,
        )
        .unwrap();
    assert_eq!(minted.id(), HandleId(path_id));
    assert!(minted.is_strong());
    assert_eq!(textures.get(&HandleId(path_id)), Some(&Texture { source: "x".to_string() }));
    assert_eq!(server.source_type(path_id), Some(AssetTypeId(TEXTURE_TYPE)));
    assert_eq!(server.pending_changes(), 1);
}

#[test]
fn the_store_keeps_the_latest_asset_of_an_id() {
    let mut textures: Assets<Texture> = Assets::new();
    let id = HandleId(AssetPathId(1));
    assert_eq!(textures.get(&id), None);
    textures.insert(id, Texture { source: "first".to_string() });
    textures.insert(id, Texture { source: "second".to_string() });
    assert_eq!(textures.get(&id), Some(&Texture { source: "second".to_string() }));
    textures.remove(HandleId(AssetPathId(2)));
    assert!(textures.contains(id));
    textures.remove(id);
    assert!(!textures.contains(id));
}

#[test]
fn lifecycle_queue_is_first_in_first_out_and_bounded() {
    let mut lifecycle = AssetLifecycle::with_capacity(2);
    let (a, b, c) = (HandleId(AssetPathId(1)), HandleId(AssetPathId(2)), HandleId(AssetPathId(3)));
    assert!(lifecycle.is_empty());
    assert_eq!(lifecycle.free_asset(a), Ok(()));
    assert_eq!(lifecycle.free_asset(b), Ok(()));
    assert!(lifecycle.is_full());
    assert_eq!(lifecycle.free_asset(c), Err(AssetLifecycleEvent::Free(c)));
    assert_eq!(lifecycle.len(), 2);
    assert_eq!(lifecycle.try_recv(), Some(AssetLifecycleEvent::Free(a)));
    assert_eq!(lifecycle.try_recv().map(|e| e.id()), Some(b));
    assert_eq!(lifecycle.try_recv(), None);
    let default = AssetLifecycle::default();
    assert_eq!(default.len(), 0);
    assert!(!default.is_full());
}

#[test]
fn ref_counter_counts_and_refuses_underflow() {
    let mut counter = AssetRefCounter::default();
    let id = HandleId(AssetPathId(5));
    assert_eq!(counter.channel_capacity(), 100);
    assert_eq!(counter.count(id), 0);
    assert_eq!(counter.decrement(id), Err(AssetError::CountUnderflow(id)));
    assert_eq!(counter.increment(id), Ok(()));
    assert_eq!(counter.increment(id), Ok(()));
    assert_eq!(counter.count(id), 2);
    assert_eq!(counter.decrement(id), Ok(1));
    assert_eq!(counter.decrement(id), Ok(0));
    assert_eq!(counter.count(id), 0);
    assert_eq!(counter.count(HandleId(AssetPathId(6))), 0);
    assert_eq!(counter.sender().try_send(RefChange::Increment(id)), Ok(()));
    assert_eq!(counter.pending_len(), 1);
    assert_eq!(counter.next_change(), Some(RefChange::Increment(id)));
    assert_eq!(counter.take_change(), Some(RefChange::Increment(id)));
    assert_eq!(counter.take_change(), None);
}

#[test]
fn debug_loader_answers_every_path_with_a_debug_asset() {
    let mut server: AssetServer<DebugLoader> = AssetServer::new();
    let mut assets = server.register_asset::<DebugAsset>().unwrap();
    let loader = DebugLoader::new(&["dbg", "tmp"]);
    assert_eq!(loader.extensions(), &["dbg", "tmp"]);
    assert_eq!(loader.load(&path("x.dbg")), DebugAsset {});
    server.add_loader(loader).unwrap();
    assert_eq!(<DebugAsset as Asset<DebugAsset>>::TYPE_UUID, DEBUG_ASSET_TYPE_ID);
    assert!(server.is_registered(AssetTypeId(DEBUG_ASSET_TYPE_ID)));
    let handle = server.load::<DebugAsset>(&path("probe.tmp"), &mut assets).unwrap();
    assert_eq!(assets.get_asset(&handle), Some(&DebugAsset {}));
    assert_eq!(
        server.add_loader(DebugLoader::new(&["tmp"])),
        Err(AssetError::DuplicateExtension)
    );
    assert!(AssetError::DuplicateExtension.is_configuration_error());
    assert!(!AssetError::DuplicateExtension.is_lookup_error());
}

#[test]
fn errors_fall_into_four_classes() {
    let id = HandleId(AssetPathId(1));
    let t = AssetTypeId(2);
    let all = [
        AssetError::DuplicateAssetType(t),
        AssetError::DuplicateExtension,
        AssetError::NoLoaderForExtension,
        AssetError::AssetTypeNotRegistered(t),
        AssetError::AssetTypeMismatch,
        AssetError::CountUnderflow(id),
        AssetError::MissingSourceInfo(id),
        AssetError::CountOverflow(id),
        AssetError::ChannelFull,
        AssetError::LifecycleFull(t),
    ];
    let classes: Vec<[bool; 4]> = all
        .iter()
        .map(|e| {
            [
                e.is_configuration_error(),
                e.is_lookup_error(),
                e.is_protocol_error(),
                e.is_backpressure(),
            ]
        })
        .collect();
    for class in &classes {
        assert_eq!(class.iter().filter(|b| **b).count(), 1);
    }
    assert_eq!(classes.iter().filter(|c| c[0]).count(), 2);
    assert_eq!(classes.iter().filter(|c| c[1]).count(), 3);
    assert_eq!(classes.iter().filter(|c| c[2]).count(), 3);
    assert_eq!(classes.iter().filter(|c| c[3]).count(), 2);
    assert_eq!(t.value(), 2);
}
