use pf_engine::asset_server::asset_path::PATH_HASH_KEY_1;
use pf_engine::asset_server::asset_path::PATH_HASH_KEY_2;
use pf_engine::asset_server::AssetPath;
use pf_engine::asset_server::AssetPathId;
use pf_engine::asset_server::HandleId;
use std::hash::Hash;
use std::hash::Hasher;

fn path(p: &str) -> AssetPath {
    AssetPath::new(p.to_string(), None)
}

fn labelled(p: &str, label: &str) -> AssetPath {
    AssetPath::new(p.to_string(), Some(label.to_string()))
}

fn digest(text: &str) -> u64 {
    let mut hasher = ahash::AHasher::new_with_keys(42, 23);
    text.hash(&mut hasher);
    hasher.finish()
}

fn reference_id(p: &str, label: Option<&str>) -> u64 {
    match label {
        None => digest(p),
        Some(label) => rg3d_core::hash_combine(digest(p), digest(label)),
    }
}

#[test]
fn hash_keys_are_the_fixed_pair() {
    assert_eq!(PATH_HASH_KEY_1, 42);
    assert_eq!(PATH_HASH_KEY_2, 23);
}

#[test]
fn id_is_the_same_on_every_call() {
    let a = path("textures/foo.tex");
    let first = a.get_id();
    let second = a.get_id();
    assert_eq!(first, second);
    assert_eq!(path("textures/foo.tex").get_id(), first);
}

#[test]
fn id_is_the_keyed_digest_of_path_and_label() {
    assert_eq!(path("foo.tex").get_id(), AssetPathId(reference_id("foo.tex", None)));
    assert_eq!(
        labelled("scene.gltf", "Mesh0").get_id(),
        AssetPathId(reference_id("scene.gltf", Some("Mesh0")))
    );
    assert_eq!(path("").get_id(), AssetPathId(reference_id("", None)));
}

#[test]
fn id_is_not_the_digest_under_other_keys() {
    let mut hasher = ahash::AHasher::new_with_keys(23, 42);
    "foo.tex".hash(&mut hasher);
    assert_ne!(path("foo.tex").get_id().value(), hasher.finish());
}

#[test]
fn different_paths_and_labels_get_different_ids() {
    let foo = path("foo.tex").get_id();
    assert_ne!(foo, path("bar.tex").get_id());
    assert_ne!(foo, path("foo.text").get_id());
    assert_ne!(foo, labelled("foo.tex", "a").get_id());
    assert_ne!(labelled("foo.tex", "a").get_id(), labelled("foo.tex", "b").get_id());
}

#[test]
fn id_conversions_agree_with_get_id() {
    let p = path("models/ship.mesh");
    let id = p.get_id();
    assert_eq!(AssetPathId::from(&p), id);
    assert_eq!(AssetPathId::from(p.clone()), id);
    assert_eq!(HandleId::from(p.clone()), HandleId(id));
    assert_eq!(HandleId::from(p).path_id(), id);
    assert_eq!(id.value(), id.0);
}

#[test]
fn path_and_label_are_kept() {
    let p = labelled("a/b.tex", "part");
    assert_eq!(p.path(), "a/b.tex");
    assert_eq!(p.label(), Some("part".to_string()));
    assert_eq!(path("a/b.tex").label(), None);
    let copy = p.clone();
    assert_eq!(copy.path(), "a/b.tex");
    assert_eq!(copy.label(), Some("part".to_string()));
    assert_eq!(copy.get_id(), p.get_id());
}

#[test]
fn extension_is_what_follows_the_last_dot_of_the_file_name() {
    assert_eq!(path("foo.tex").extension(), Some("tex".to_string()));
    assert_eq!(path("dir/sub/foo.tar.gz").extension(), Some("gz".to_string()));
    assert_eq!(path("dir.d/foo.texture").extension(), Some("texture".to_string()));
    assert_eq!(path("foo.").extension(), Some("".to_string()));
    assert_eq!(path("a/.hidden.cfg").extension(), Some("cfg".to_string()));
    assert_eq!(path("ünï/cödé.tëx").extension(), Some("tëx".to_string()));
}

#[test]
fn extension_is_missing_where_the_file_name_has_none() {
    assert_eq!(path("").extension(), None);
    assert_eq!(path("foo").extension(), None);
    assert_eq!(path("dir.d/foo").extension(), None);
    assert_eq!(path(".gitignore").extension(), None);
    assert_eq!(path("dir/.gitignore").extension(), None);
    assert_eq!(path("..").extension(), None);
    assert_eq!(path("dir/..").extension(), None);
    assert_eq!(path("foo.tex/").extension(), None);
}

#[test]
fn label_does_not_change_the_extension() {
    assert_eq!(labelled("foo.tex", "a.b").extension(), Some("tex".to_string()));
}

#[test]
fn strings_become_unlabelled_paths() {
    let from_str = AssetPath::from("a/b.tex");
    assert_eq!(from_str.path(), "a/b.tex");
    assert_eq!(from_str.label(), None);
    let from_string = AssetPath::from("a/b.tex".to_string());
    assert_eq!(from_string.path(), "a/b.tex");
    assert_eq!(from_string.label(), None);
    assert_eq!(from_str.get_id(), path("a/b.tex").get_id());
    assert_eq!(from_string.get_id(), path("a/b.tex").get_id());
    let converted: AssetPath = "c.mesh".into();
    assert_eq!(converted.extension(), Some("mesh".to_string()));
}

#[test]
fn an_absent_label_adds_nothing_to_the_digest() {
    #[derive(Hash)]
    struct PathOnly {
        path: String,
    }
    let mut hasher = ahash::AHasher::new_with_keys(42, 23);
    PathOnly { path: "foo.tex".to_string() }.hash(&mut hasher);
    assert_eq!(path("foo.tex").get_id(), AssetPathId(hasher.finish()));
    let mut with_tag = ahash::AHasher::new_with_keys(42, 23);
    "foo.tex".hash(&mut with_tag);
    None::<&str>.hash(&mut with_tag);
    assert_ne!(path("foo.tex").get_id(), AssetPathId(with_tag.finish()));
}

#[test]
fn a_label_is_combined_in_its_place() {
    assert_ne!(labelled("a", "b").get_id(), labelled("b", "a").get_id());
    assert_ne!(labelled("foo.tex", "").get_id(), path("foo.tex").get_id());
    assert_eq!(
        labelled("a", "b").get_id().value(),
        rg3d_core::hash_combine(digest("a"), digest("b"))
    );
}
