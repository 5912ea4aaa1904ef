use image_cache::dpi::derive_dpi;
use image_cache::fingerprint::Fingerprinter;
use image_cache::info::PreviewDescriptor;
use image_cache::info::assemble_image_info;
use image_cache::job::DEFAULT_DIMENSION_CEILING;
use image_cache::job::JobConfig;
use image_cache::job::derive_artifacts;
use image_cache::sizes::format_file_size;
use image_cache::store::ArtifactKind;
use image_cache::store::DerivedStore;
use sha2::Digest;

/// Import a single 4000x2000 PNG with no embedded resolution into an
/// empty cache with a preview bound of 1024: one result with a
/// 1024x512 preview, a 4000x2000 master, 72 DPI, and two new artifacts
/// named by the file's SHA-256 digest.
#[test]
fn single_large_png_into_empty_cache() {
    let img = image::RgbImage::from_pixel(4000, 2000, image::Rgb([20, 40, 60]));
    let mut buf = std::io::Cursor::new(Vec::new());
    img.write_to(&mut buf, image::ImageFormat::Png).unwrap();
    let source = buf.into_inner();

    // The fingerprint is the SHA-256 hex digest of the file's bytes,
    // computed as a bounded-memory stream.
    let mut hasher = Fingerprinter::new();
    for chunk in source.chunks(8192) {
        hasher.update(chunk);
    }
    let fingerprint = hasher.finish_hex();
    assert_eq!(fingerprint, hex::encode(sha2::Sha256::digest(&source)));

    // An empty cache holds neither artifact, so both are derived.
    let config = JobConfig::new(1024, DEFAULT_DIMENSION_CEILING);
    let derived = derive_artifacts(&source, false, false, &config).unwrap();
    assert_eq!((derived.width, derived.height), (4000, 2000));
    assert_eq!((derived.preview_width, derived.preview_height), (1024, 512));
    assert!(!derived.preview_is_master);

    let preview_bytes = derived.preview_bytes.unwrap();
    let master_bytes = derived.master_bytes.unwrap();
    let preview = image::load_from_memory(&preview_bytes).unwrap();
    assert_eq!((preview.width(), preview.height()), (1024, 512));
    let master = image::load_from_memory(&master_bytes).unwrap();
    assert_eq!((master.width(), master.height()), (4000, 2000));

    // Two new artifacts, under lowres/ and highres/, named by the
    // fingerprint.
    let store = DerivedStore::new(String::from("/cache"));
    let preview_path = store.path_for(&fingerprint, ArtifactKind::Preview);
    let master_path = store.path_for(&fingerprint, ArtifactKind::Master);
    assert_eq!(preview_path, format!("/cache/lowres/{}.png", fingerprint));
    assert_eq!(master_path, format!("/cache/highres/{}.tiff", fingerprint));
    assert_ne!(preview_path, master_path);

    // No resolution tags: the documented default applies.
    let dpi = derive_dpi(None, None);
    assert_eq!(dpi, 72);

    let info = assemble_image_info(
        fingerprint.clone(),
        master_path.clone(),
        derived.width,
        derived.height,
        format_file_size(master_bytes.len() as u64),
        Some(PreviewDescriptor {
            path: preview_path.clone(),
            width: derived.preview_width,
            height: derived.preview_height,
            size: format_file_size(preview_bytes.len() as u64),
        }),
        Some(dpi),
    );
    assert_eq!(info.image_name, fingerprint);
    assert_eq!(info.paths.lowres, preview_path);
    assert_eq!(info.paths.highres, master_path);
    assert_eq!((info.dimensions.lowres.x, info.dimensions.lowres.y), (1024, 512));
    assert_eq!((info.dimensions.highres.x, info.dimensions.highres.y), (4000, 2000));
    assert_eq!(info.dpi, Some(72));
}

/// Importing the same bytes again with both artifacts present derives
/// nothing and reports the same paths: the cache hit of a second run.
#[test]
fn second_import_of_same_content_is_a_cache_hit() {
    let img = image::RgbImage::from_pixel(1300, 700, image::Rgb([1, 2, 3]));
    let mut buf = std::io::Cursor::new(Vec::new());
    img.write_to(&mut buf, image::ImageFormat::Png).unwrap();
    let source = buf.into_inner();

    let mut first = Fingerprinter::new();
    first.update(&source);
    let mut second = Fingerprinter::new();
    second.update(&source);
    let fingerprint = first.finish_hex();
    assert_eq!(fingerprint, second.finish_hex());

    let store = DerivedStore::new(String::from("/cache"));
    assert_eq!(
        store.path_for(&fingerprint, ArtifactKind::Preview),
        store.path_for(&fingerprint, ArtifactKind::Preview)
    );

    let config = JobConfig::new(1024, DEFAULT_DIMENSION_CEILING);
    let derived = derive_artifacts(&source, true, true, &config).unwrap();
    assert!(derived.preview_bytes.is_none(), "no new artifact bytes are written");
    assert!(derived.master_bytes.is_none(), "no new artifact bytes are written");
}
