use image_cache::errors::ImportError;
use image_cache::codec::get_lowres_image;
use image_cache::codec::master_bytes;
use image_cache::codec::preview_png;
use image_cache::pixel::DecodedImage;
use image_cache::pixel::PixelFormat;
use image_cache::probe::Container;

fn rgb_image(width: u32, height: u32) -> DecodedImage {
    let mut bytes = Vec::with_capacity((width * height * 3) as usize);
    for y in 0..height {
        for x in 0..width {
            bytes.push((x % 256) as u8);
            bytes.push((y % 256) as u8);
            bytes.push(((x + y) % 256) as u8);
        }
    }
    DecodedImage { width, height, format: PixelFormat::Rgb8, bytes }
}

#[test]
fn preview_of_large_source_is_resized_png() {
    let img = rgb_image(2048, 1024);
    let png = get_lowres_image(&img).unwrap();
    let decoded = image::load_from_memory(&png).unwrap();
    assert_eq!(decoded.width(), 1024);
    assert_eq!(decoded.height(), 512);
    assert_eq!(decoded.color(), image::ColorType::Rgb8);
}

#[test]
fn preview_of_small_source_keeps_pixels_exactly() {
    let img = rgb_image(64, 32);
    let png = get_lowres_image(&img).unwrap();
    assert_ne!(png, img.bytes, "the encoding must not be the raw buffer");
    let decoded = image::load_from_memory(&png).unwrap();
    assert_eq!(decoded.width(), 64);
    assert_eq!(decoded.height(), 32);
    assert_eq!(decoded.into_rgb8().into_raw(), img.bytes);
}

#[test]
fn preview_honors_custom_bound() {
    let img = rgb_image(200, 100);
    let png = preview_png(&img, 50).unwrap();
    let decoded = image::load_from_memory(&png).unwrap();
    assert_eq!(decoded.width(), 50);
    assert_eq!(decoded.height(), 25);
}

#[test]
fn preview_rejects_float_pixels() {
    let img = DecodedImage {
        width: 2,
        height: 1,
        format: PixelFormat::Rgb32F,
        bytes: vec![0u8; 24],
    };
    assert_eq!(get_lowres_image(&img), Err(ImportError::UnsupportedPixelFormat));
}

#[test]
fn master_of_tiff_source_is_byte_copy() {
    let source = vec![1u8, 2, 3, 4, 5];
    let img = rgb_image(1, 1);
    let copy = master_bytes(&source, Container::Tiff, Some(&img)).unwrap();
    assert_eq!(copy, source);
}

#[test]
fn master_of_other_source_is_tiff_encoding() {
    let img = rgb_image(40, 20);
    let source = vec![0u8; 10];
    let master = master_bytes(&source, Container::Other, Some(&img)).unwrap();
    assert_ne!(master, source);
    let decoded = image::load_from_memory(&master).unwrap();
    assert_eq!(decoded.width(), 40);
    assert_eq!(decoded.height(), 20);
    assert_eq!(decoded.into_rgb8().into_raw(), img.bytes);
}

#[test]
fn master_rejects_luminance_alpha() {
    let img = DecodedImage {
        width: 2,
        height: 2,
        format: PixelFormat::La8,
        bytes: vec![0u8; 8],
    };
    let source = vec![0u8; 4];
    assert_eq!(
        master_bytes(&source, Container::Other, Some(&img)),
        Err(ImportError::UnsupportedPixelFormat)
    );
}

#[test]
fn preview_preserves_sixteen_bit_depth() {
    let width: u32 = 300;
    let height: u32 = 200;
    let mut bytes = Vec::new();
    for y in 0..height {
        for x in 0..width {
            let v = ((x * 251 + y) % 65521) as u16;
            for c in [v, v / 2, v / 3] {
                bytes.extend_from_slice(&c.to_ne_bytes());
            }
        }
    }
    let img = DecodedImage { width, height, format: PixelFormat::Rgb16, bytes };
    let png = preview_png(&img, 100).unwrap();
    let decoded = image::load_from_memory(&png).unwrap();
    assert_eq!(decoded.color(), image::ColorType::Rgb16);
    assert_eq!(decoded.width(), 100);
}

#[test]
fn extremely_thin_source_cannot_be_encoded() {
    // 5000x1 scales to 1024x0: a zero edge has no PNG encoding.
    let img = rgb_image(5000, 1);
    assert_eq!(get_lowres_image(&img), Err(ImportError::EncodeError));
}
