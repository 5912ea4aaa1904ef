//! Decoding, resampling and artifact encoding.
//!
//! The preview artifact is encoded as PNG at maximum compression
//! effort; the master artifact is encoded as TIFF, or copied byte for
//! byte when the source is already a TIFF.  Both encoders preserve the
//! pixel format of their input; a format they cannot represent is
//! rejected as [`ImportError::UnsupportedPixelFormat`].

use vstd::prelude::*;
use vstd::slice::slice_to_vec;
use vstd::arithmetic::div_mod::lemma_basic_div;
use crate::errors::ImportError;
use crate::pixel::DecodedImage;
use crate::pixel::PixelFormat;
use crate::probe::Container;
use crate::resize::MAXIMUM_DIMENSION;
use crate::resize::longest_edge;
use crate::resize::spec_new_dimensions;
use crate::resize::scaled_edge;
use crate::resize::scaled_dimensions;

verus! {

/// The PNG encoding (maximum compression, adaptive filtering) of a
/// pixel buffer: a function of format, dimensions and pixels alone.
/// Multi-byte samples are read from the buffer in the build target's
/// byte order, so the claim is scoped to one target; every use of the
/// encoding stays within one process.
pub uninterp spec fn spec_png_bytes(
    format: PixelFormat,
    width: int,
    height: int,
    pixels: Seq<u8>,
) -> Seq<u8>;

/// The TIFF encoding of a pixel buffer: a function of format,
/// dimensions and pixels alone.  Multi-byte samples are read from the
/// buffer in the build target's byte order, so the claim is scoped to
/// one target; every use of the encoding stays within one process.
pub uninterp spec fn spec_tiff_bytes(
    format: PixelFormat,
    width: int,
    height: int,
    pixels: Seq<u8>,
) -> Seq<u8>;

/// Whether `v` is the PNG encoding of some pixel buffer of the given
/// format and dimensions.
pub open spec fn is_preview_encoding(v: Seq<u8>, format: PixelFormat, width: int, height: int) -> bool {
    exists|pixels: Seq<u8>|
        pixels.len() == width * height * format.spec_bytes_per_pixel() && v == #[trigger] spec_png_bytes(
            format,
            width,
            height,
            pixels,
        )
}

/// Whether `v` is the PNG encoding of some pixel buffer of the given
/// dimensions, in whatever format.
pub open spec fn is_sized_png(v: Seq<u8>, width: int, height: int) -> bool {
    exists|format: PixelFormat| #[trigger] is_preview_encoding(v, format, width, height)
}

/// Whether `v` is the TIFF encoding of some pixel buffer of the given
/// format and dimensions.
pub open spec fn is_master_encoding(v: Seq<u8>, format: PixelFormat, width: int, height: int) -> bool {
    exists|pixels: Seq<u8>|
        pixels.len() == width * height * format.spec_bytes_per_pixel() && v == #[trigger] spec_tiff_bytes(
            format,
            width,
            height,
            pixels,
        )
}

/// Whether `v` is the TIFF encoding of some pixel buffer of the given
/// dimensions, in whatever format.
pub open spec fn is_sized_tiff(v: Seq<u8>, width: int, height: int) -> bool {
    exists|format: PixelFormat| #[trigger] is_master_encoding(v, format, width, height)
}

/// image's color tag for each pixel format the pipeline models.
#[verifier::external_body]
fn ext_color_of(format: PixelFormat) -> image::ExtendedColorType {
    match format {
        PixelFormat::L8 => image::ExtendedColorType::L8,
        PixelFormat::La8 => image::ExtendedColorType::La8,
        PixelFormat::Rgb8 => image::ExtendedColorType::Rgb8,
        PixelFormat::Rgba8 => image::ExtendedColorType::Rgba8,
        PixelFormat::L16 => image::ExtendedColorType::L16,
        PixelFormat::La16 => image::ExtendedColorType::La16,
        PixelFormat::Rgb16 => image::ExtendedColorType::Rgb16,
        PixelFormat::Rgba16 => image::ExtendedColorType::Rgba16,
        PixelFormat::Rgb32F => image::ExtendedColorType::Rgb32F,
        PixelFormat::Rgba32F => image::ExtendedColorType::Rgba32F,
    }
}

/// image's color tag, opaque to verification.
#[verifier::external_type_specification]
#[verifier::external_body]
pub struct ExExtendedColorType(image::ExtendedColorType);

/// Whether the image crate decodes this byte content into pixel data
/// of one of the modeled formats: a function of the bytes alone.
pub uninterp spec fn spec_decodes(bytes: Seq<u8>) -> bool;

/// Relies on image's `ImageReader`: guesses the container from the
/// content and fully decodes the pixel data.  The decoded buffer holds
/// exactly `width * height` packed pixels of the reported format, and
/// the decoded dimensions and format are the ones the header probe
/// reports for the same bytes (the decoder that the probe reads is the
/// one the image is built from).
#[verifier::external_body]
pub(crate) fn decode_image(bytes: &[u8]) -> (r: Result<DecodedImage, ImportError>)
    ensures
        r is Ok <==> spec_decodes(bytes@),
        r matches Ok(img) ==> img.wf(),
        r matches Ok(img) ==> (crate::probe::spec_probe(bytes@) matches Some(p) ==> img.width
            == p.width && img.height == p.height && img.format == p.format),
        r matches Err(e) ==> e == ImportError::FormatError || e == ImportError::DecodeError || e
            == ImportError::UnsupportedPixelFormat,
{
    let reader = match image::ImageReader::new(std::io::Cursor::new(bytes)).with_guessed_format() {
        Ok(r) => r, Err(_) => return Err(ImportError::FormatError),
    };
    let mut reader = reader;
    reader.no_limits();
    let img = match reader.decode() {
        Ok(i) => i, Err(_) => return Err(ImportError::DecodeError),
    };
    let format = match crate::pixel::pixel_format_of(img.color()) {
        Some(f) => f, None => return Err(ImportError::UnsupportedPixelFormat),
    };
    let (width, height) = (img.width(), img.height());
    Ok(DecodedImage { width, height, format, bytes: img.into_bytes() })
}

/// Relies on image's `PngEncoder` with `CompressionType::Best` and
/// `FilterType::Adaptive`: deterministic PNG bytes for the integer
/// formats; floating-point formats are refused, never degraded.  The
/// writer is an in-memory buffer, and the encoder rejects only an
/// unsupported color or a zero dimension, so for a supported format
/// with both dimensions nonzero success is owed.
#[verifier::external_body]
fn encode_png_raw(img: &DecodedImage) -> (r: Result<Vec<u8>, ImportError>)
    requires
        img.wf(),
    ensures
        r matches Ok(v) ==> img.format.spec_png_supported() && v@ == spec_png_bytes(
            img.format,
            img.width as int,
            img.height as int,
            img.bytes@,
        ),
        r is Ok ==> img.format.spec_png_supported(),
        (img.format.spec_png_supported() && img.width >= 1 && img.height >= 1) ==> r is Ok,
        r matches Err(e) ==> (if img.format.spec_png_supported() {
            e == ImportError::EncodeError
        } else {
            e == ImportError::UnsupportedPixelFormat
        }),
{
    let mut out = Vec::new();
    let enc = image::codecs::png::PngEncoder::new_with_quality(
        &mut out,
        image::codecs::png::CompressionType::Best,
        image::codecs::png::FilterType::Adaptive,
    );
    match image::ImageEncoder::write_image(enc, &img.bytes, img.width, img.height, ext_color_of(img.format)) {
        Ok(()) => Ok(out),
        Err(image::ImageError::Unsupported(_)) => Err(ImportError::UnsupportedPixelFormat),
        Err(_) => Err(ImportError::EncodeError),
    }
}

/// Relies on image's `TiffEncoder`: deterministic TIFF bytes for every
/// format but luminance-with-alpha, which TIFF cannot represent.  The
/// writer is an in-memory buffer; the encoder rejects a zero dimension
/// and fails when a file offset outgrows the classic 32-bit TIFF
/// fields, so for a supported format with nonzero dimensions and under
/// two gibibytes of pixel data success is owed.
#[verifier::external_body]
fn encode_tiff_raw(img: &DecodedImage) -> (r: Result<Vec<u8>, ImportError>)
    requires
        img.wf(),
    ensures
        r matches Ok(v) ==> img.format.spec_tiff_supported() && v@ == spec_tiff_bytes(
            img.format,
            img.width as int,
            img.height as int,
            img.bytes@,
        ),
        r is Ok ==> img.format.spec_tiff_supported(),
        (img.format.spec_tiff_supported() && img.width >= 1 && img.height >= 1 && img.width as int
            * img.height as int * img.format.spec_bytes_per_pixel() < 0x80000000) ==> r is Ok,
        r matches Err(e) ==> (if img.format.spec_tiff_supported() {
            e == ImportError::EncodeError
        } else {
            e == ImportError::UnsupportedPixelFormat
        }),
{
    let mut cur = std::io::Cursor::new(Vec::new());
    let enc = image::codecs::tiff::TiffEncoder::new(&mut cur);
    match image::ImageEncoder::write_image(enc, &img.bytes, img.width, img.height, ext_color_of(img.format)) {
        Ok(()) => Ok(cur.into_inner()),
        Err(image::ImageError::Unsupported(_)) => Err(ImportError::UnsupportedPixelFormat),
        Err(_) => Err(ImportError::EncodeError),
    }
}

/// fast_image_resize's pixel type tag, opaque to verification.
#[verifier::external_type_specification]
#[verifier::external_body]
pub struct ExPixelType(fast_image_resize::PixelType);

/// fast_image_resize's pixel type for each format the pipeline models.
#[verifier::external_body]
fn resize_pixel_type(format: PixelFormat) -> fast_image_resize::PixelType {
    match format {
        PixelFormat::L8 => fast_image_resize::PixelType::U8,
        PixelFormat::La8 => fast_image_resize::PixelType::U8x2,
        PixelFormat::Rgb8 => fast_image_resize::PixelType::U8x3,
        PixelFormat::Rgba8 => fast_image_resize::PixelType::U8x4,
        PixelFormat::L16 => fast_image_resize::PixelType::U16,
        PixelFormat::La16 => fast_image_resize::PixelType::U16x2,
        PixelFormat::Rgb16 => fast_image_resize::PixelType::U16x3,
        PixelFormat::Rgba16 => fast_image_resize::PixelType::U16x4,
        PixelFormat::Rgb32F => fast_image_resize::PixelType::F32x3,
        PixelFormat::Rgba32F => fast_image_resize::PixelType::F32x4,
    }
}

/// Relies on fast_image_resize's `Resizer` with default options:
/// Lanczos (3-lobe) convolution resampling.  The output buffer has
/// exactly the destination dimensions at the unchanged pixel format;
/// the resampled pixel values themselves are machine-dependent (the
/// resizer selects a SIMD code path at run time) and are left
/// unspecified.  A single-byte-sample buffer has no alignment
/// requirement and the convolution path cannot fail, so success is
/// owed there; a multi-byte-sample buffer may be refused on its
/// alignment, which no caller controls.
#[verifier::external_body]
fn resize_pixels(img: &DecodedImage, dst_width: u32, dst_height: u32) -> (r: Result<
    DecodedImage,
    ImportError,
>)
    requires
        img.wf(),
        1 <= dst_width,
        1 <= dst_height,
        dst_width as int * dst_height as int * img.format.spec_bytes_per_pixel()
            <= usize::MAX as int,
    ensures
        r matches Ok(out) ==> out.wf() && out.width == dst_width && out.height == dst_height
            && out.format == img.format,
        r matches Err(e) ==> e == ImportError::UnsupportedPixelFormat,
        (img.format.spec_single_byte_samples() && img.width >= 1 && img.height >= 1) ==> r is Ok,
{
    let pt = resize_pixel_type(img.format);
    let src = match fast_image_resize::images::Image::from_vec_u8(img.width, img.height, img.bytes.clone(), pt) {
        Ok(i) => i, Err(_) => return Err(ImportError::UnsupportedPixelFormat),
    };
    let mut dst = fast_image_resize::images::Image::new(dst_width, dst_height, pt);
    let mut resizer = fast_image_resize::Resizer::new();
    if resizer.resize(&src, &mut dst, None).is_err() {
        return Err(ImportError::UnsupportedPixelFormat);
    }
    Ok(DecodedImage { width: dst_width, height: dst_height, format: img.format, bytes: dst.into_vec() })
}

/// The preview artifact bytes for decoded pixel data under a
/// longest-edge bound: the PNG encoding of the Lanczos-downscaled
/// pixels when the source exceeds the bound, and of the unchanged
/// pixels otherwise.
pub fn preview_png(img: &DecodedImage, bound: u32) -> (r: Result<Vec<u8>, ImportError>)
    requires
        img.wf(),
        bound >= 1,
    ensures
        !img.format.spec_png_supported() ==> r == Err::<Vec<u8>, ImportError>(
            ImportError::UnsupportedPixelFormat,
        ),
        longest_edge(img.width as int, img.height as int) <= bound ==> (r matches Ok(v) ==> v@
            == spec_png_bytes(img.format, img.width as int, img.height as int, img.bytes@)),
        spec_new_dimensions(img.width as int, img.height as int, bound as int) matches Some(dims)
            ==> (r matches Ok(v) ==> dims.0 >= 1 && dims.1 >= 1 && is_preview_encoding(
            v@,
            img.format,
            dims.0,
            dims.1,
        )),
        r matches Err(e) ==> e == ImportError::UnsupportedPixelFormat || e
            == ImportError::EncodeError,
        img.format.spec_png_supported() && (spec_new_dimensions(
            img.width as int,
            img.height as int,
            bound as int,
        ) matches Some(dims) && (dims.0 == 0 || dims.1 == 0)) ==> r == Err::<Vec<u8>, ImportError>(
            ImportError::EncodeError,
        ),
        (img.format.spec_png_supported() && longest_edge(img.width as int, img.height as int)
            <= bound && img.width >= 1 && img.height >= 1) ==> r is Ok,
        (img.format.spec_png_supported() && img.format.spec_single_byte_samples()
            && (spec_new_dimensions(img.width as int, img.height as int, bound as int) matches Some(
            dims,
        ) && dims.0 >= 1 && dims.1 >= 1 && dims.0 * dims.1 * img.format.spec_bytes_per_pixel()
            <= usize::MAX)) ==> r is Ok,
{
    if !img.format.png_supported() {
        return Err(ImportError::UnsupportedPixelFormat);
    }
    match scaled_dimensions(img.width, img.height, bound) {
        None => encode_png_raw(img),
        Some((new_width, new_height)) => {
            if new_width == 0 || new_height == 0 {
                return Err(ImportError::EncodeError);
            }
            proof {
                let l = longest_edge(img.width as int, img.height as int);
                lemma_basic_div(l, 2 * l);
                if img.width == 0 {
                    assert(2 * 0 * (bound as int) == 0) by (nonlinear_arith);
                    assert(scaled_edge(0, l, bound as int) == l / (2 * l));
                    assert(false);
                }
                if img.height == 0 {
                    assert(2 * 0 * (bound as int) == 0) by (nonlinear_arith);
                    assert(scaled_edge(0, l, bound as int) == l / (2 * l));
                    assert(false);
                }
            }
            let bytes_per_pixel = img.format.bytes_per_pixel();
            proof {
                assert((new_width as int) * (new_height as int) < 0x10000000000000000)
                    by (nonlinear_arith)
                    requires
                        (new_width as int) < 0x100000000,
                        (new_height as int) < 0x100000000,
                ;
                assert((new_width as int) * (new_height as int) * (bytes_per_pixel as int)
                    < 0x100000000000000000) by (nonlinear_arith)
                    requires
                        0 <= (new_width as int) * (new_height as int) < 0x10000000000000000,
                        0 <= (bytes_per_pixel as int) <= 16,
                ;
            }
            let needed: u128 = (new_width as u128) * (new_height as u128) * (
            bytes_per_pixel as u128);
            if needed > usize::MAX as u128 {
                return Err(ImportError::EncodeError);
            }
            let resized = match resize_pixels(img, new_width, new_height) {
                Ok(out) => out,
                Err(e) => {
                    return Err(e);
                },
            };
            match encode_png_raw(&resized) {
                Ok(v) => {
                    proof {
                        assert(v@ == spec_png_bytes(
                            img.format,
                            new_width as int,
                            new_height as int,
                            resized.bytes@,
                        ));
                        assert(resized.bytes@.len() == (new_width as int) * (new_height as int)
                            * img.format.spec_bytes_per_pixel());
                        assert(is_preview_encoding(
                            v@,
                            img.format,
                            new_width as int,
                            new_height as int,
                        )) by {
                            assert(v@ == spec_png_bytes(
                                img.format,
                                new_width as int,
                                new_height as int,
                                resized.bytes@,
                            ));
                        }
                    }
                    Ok(v)
                },
                Err(e) => Err(e),
            }
        },
    }
}

/// The preview artifact bytes for decoded pixel data, under the
/// pipeline's longest-edge bound [`MAXIMUM_DIMENSION`].
pub fn get_lowres_image(img: &DecodedImage) -> (r: Result<Vec<u8>, ImportError>)
    requires
        img.wf(),
    ensures
        !img.format.spec_png_supported() ==> r == Err::<Vec<u8>, ImportError>(
            ImportError::UnsupportedPixelFormat,
        ),
        longest_edge(img.width as int, img.height as int) <= MAXIMUM_DIMENSION ==> (r matches Ok(v)
            ==> v@ == spec_png_bytes(img.format, img.width as int, img.height as int, img.bytes@)),
        spec_new_dimensions(
            img.width as int,
            img.height as int,
            MAXIMUM_DIMENSION as int,
        ) matches Some(dims) ==> (r matches Ok(v) ==> dims.0 >= 1 && dims.1 >= 1
            && is_preview_encoding(v@, img.format, dims.0, dims.1)),
        r matches Err(e) ==> e == ImportError::UnsupportedPixelFormat || e
            == ImportError::EncodeError,
        (img.format.spec_png_supported() && longest_edge(img.width as int, img.height as int)
            <= MAXIMUM_DIMENSION && img.width >= 1 && img.height >= 1) ==> r is Ok,
        (img.format.spec_png_supported() && img.format.spec_single_byte_samples()
            && (spec_new_dimensions(
            img.width as int,
            img.height as int,
            MAXIMUM_DIMENSION as int,
        ) matches Some(dims) && dims.0 >= 1 && dims.1 >= 1 && dims.0 * dims.1
            * img.format.spec_bytes_per_pixel() <= usize::MAX)) ==> r is Ok,
{
    preview_png(img, MAXIMUM_DIMENSION)
}

/// The master artifact bytes for a source: a byte-level copy when the
/// source container is already the archival format — strictly cheaper
/// and free of generational quality loss — and the TIFF encoding of
/// the decoded pixels otherwise.
pub fn master_bytes(source: &[u8], container: Container, img: Option<&DecodedImage>) -> (r: Result<
    Vec<u8>,
    ImportError,
>)
    requires
        container == Container::Other ==> (img matches Some(i) && i.wf()),
    ensures
        container == Container::Tiff ==> (r matches Ok(v) && v@ == source@),
        container == Container::Other ==> (img matches Some(i) ==> {
            &&& (r matches Ok(v) ==> i.format.spec_tiff_supported() && v@ == spec_tiff_bytes(
                i.format,
                i.width as int,
                i.height as int,
                i.bytes@,
            ))
            &&& (!i.format.spec_tiff_supported() ==> r == Err::<Vec<u8>, ImportError>(
                ImportError::UnsupportedPixelFormat,
            ))
            &&& (r matches Err(e) ==> e == ImportError::UnsupportedPixelFormat || e
                == ImportError::EncodeError)
            &&& ((i.format.spec_tiff_supported() && i.width >= 1 && i.height >= 1 && i.width as int
                * i.height as int * i.format.spec_bytes_per_pixel() < 0x80000000) ==> r is Ok)
        }),
{
    match container {
        Container::Tiff => Ok(slice_to_vec(source)),
        Container::Other => match img {
            Some(i) => encode_tiff_raw(i),
            None => vstd::pervasive::unreached(),
        },
    }
}

} // verus!
