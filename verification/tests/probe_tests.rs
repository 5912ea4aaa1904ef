use image_cache::errors::ImportError;
use image_cache::pixel::PixelFormat;
use image_cache::probe::Container;
use image_cache::probe::check_dimensions;
use image_cache::probe::probe_image;

fn png_bytes(width: u32, height: u32) -> Vec<u8> {
    let img = image::RgbImage::from_fn(width, height, |x, y| {
        image::Rgb([(x % 251) as u8, (y % 251) as u8, 7])
    });
    let mut buf = std::io::Cursor::new(Vec::new());
    img.write_to(&mut buf, image::ImageFormat::Png).unwrap();
    buf.into_inner()
}

fn tiff_bytes(width: u32, height: u32) -> Vec<u8> {
    let img = image::RgbImage::from_fn(width, height, |x, y| {
        image::Rgb([(x % 251) as u8, (y % 251) as u8, 9])
    });
    let mut buf = std::io::Cursor::new(Vec::new());
    img.write_to(&mut buf, image::ImageFormat::Tiff).unwrap();
    buf.into_inner()
}

#[test]
fn probe_reports_dimensions_and_format() {
    let bytes = png_bytes(100, 50);
    let info = probe_image(&bytes, 32768).unwrap();
    assert_eq!(info.width, 100);
    assert_eq!(info.height, 50);
    assert_eq!(info.format, PixelFormat::Rgb8);
    assert_eq!(info.container, Container::Other);
}

#[test]
fn probe_recognizes_archival_container() {
    let bytes = tiff_bytes(20, 10);
    let info = probe_image(&bytes, 32768).unwrap();
    assert_eq!(info.container, Container::Tiff);
    assert_eq!(info.width, 20);
    assert_eq!(info.height, 10);
}

#[test]
fn probe_rejects_oversized_width() {
    let bytes = png_bytes(100, 50);
    assert_eq!(probe_image(&bytes, 99), Err(ImportError::DimensionTooLarge));
}

#[test]
fn probe_rejects_oversized_height() {
    let bytes = png_bytes(50, 100);
    assert_eq!(probe_image(&bytes, 99), Err(ImportError::DimensionTooLarge));
}

#[test]
fn probe_accepts_dimensions_at_ceiling() {
    let bytes = png_bytes(100, 50);
    assert!(probe_image(&bytes, 100).is_ok());
}

#[test]
fn probe_rejects_unrecognized_content() {
    let bytes = vec![0u8, 1, 2, 3, 4, 5, 6, 7];
    assert_eq!(probe_image(&bytes, 32768), Err(ImportError::FormatError));
}

#[test]
fn dimension_check_is_exact() {
    assert!(check_dimensions(100, 100, 100).is_ok());
    assert_eq!(check_dimensions(101, 100, 100), Err(ImportError::DimensionTooLarge));
    assert_eq!(check_dimensions(100, 101, 100), Err(ImportError::DimensionTooLarge));
}
