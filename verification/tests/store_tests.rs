use image_cache::store::ArtifactKind;
use image_cache::store::DerivedStore;
use image_cache::store::prepare_directories;

#[test]
fn artifact_paths_are_deterministic() {
    let store = DerivedStore::new(String::from("/cache"));
    assert_eq!(store.path_for("abc123", ArtifactKind::Preview), "/cache/lowres/abc123.png");
    assert_eq!(store.path_for("abc123", ArtifactKind::Master), "/cache/highres/abc123.tiff");
}

#[test]
fn same_fingerprint_always_names_the_same_paths() {
    let store = DerivedStore::new(String::from("/cache"));
    assert_eq!(
        store.path_for("ff00", ArtifactKind::Preview),
        store.path_for("ff00", ArtifactKind::Preview)
    );
}

#[test]
fn temporary_paths_add_a_suffix() {
    let store = DerivedStore::new(String::from("/cache"));
    assert_eq!(
        store.temp_path_for("abc123", ArtifactKind::Master),
        "/cache/highres/abc123.tiff.tmp"
    );
}

#[test]
fn directories_follow_the_layout() {
    let (lowres, highres) = prepare_directories("/data/image_store");
    assert_eq!(lowres, "/data/image_store/lowres");
    assert_eq!(highres, "/data/image_store/highres");
}
