//! Decoded pixel data and its formats.

use vstd::prelude::*;

verus! {

/// Channel count and bit depth of decoded pixel data.
///
/// The resize engine preserves the pixel format of its input: no
/// silent channel dropping or bit-depth truncation.  A format an
/// encoder cannot represent is rejected, never degraded.
#[derive(Clone, Copy, Debug, PartialEq, Eq, Structural)]
pub enum PixelFormat {
    /// 8-bit luminance.
    L8,
    /// 8-bit luminance with alpha.
    La8,
    /// 8-bit RGB.
    Rgb8,
    /// 8-bit RGB with alpha.
    Rgba8,
    /// 16-bit luminance.
    L16,
    /// 16-bit luminance with alpha.
    La16,
    /// 16-bit RGB.
    Rgb16,
    /// 16-bit RGB with alpha.
    Rgba16,
    /// 32-bit floating-point RGB.
    Rgb32F,
    /// 32-bit floating-point RGB with alpha.
    Rgba32F,
}

impl PixelFormat {
    /// Bytes each pixel of this format occupies.
    pub open spec fn spec_bytes_per_pixel(self) -> int {
        match self {
            PixelFormat::L8 => 1,
            PixelFormat::La8 => 2,
            PixelFormat::Rgb8 => 3,
            PixelFormat::Rgba8 => 4,
            PixelFormat::L16 => 2,
            PixelFormat::La16 => 4,
            PixelFormat::Rgb16 => 6,
            PixelFormat::Rgba16 => 8,
            PixelFormat::Rgb32F => 12,
            PixelFormat::Rgba32F => 16,
        }
    }

    /// Bytes each pixel of this format occupies.
    pub fn bytes_per_pixel(&self) -> (r: u32)
        ensures
            r as int == self.spec_bytes_per_pixel(),
    {
        match self {
            PixelFormat::L8 => 1,
            PixelFormat::La8 => 2,
            PixelFormat::Rgb8 => 3,
            PixelFormat::Rgba8 => 4,
            PixelFormat::L16 => 2,
            PixelFormat::La16 => 4,
            PixelFormat::Rgb16 => 6,
            PixelFormat::Rgba16 => 8,
            PixelFormat::Rgb32F => 12,
            PixelFormat::Rgba32F => 16,
        }
    }

    /// Whether the preview encoder (PNG) can represent this format:
    /// the integer formats, not the floating-point ones.
    pub open spec fn spec_png_supported(self) -> bool {
        match self {
            PixelFormat::Rgb32F => false,
            PixelFormat::Rgba32F => false,
            _ => true,
        }
    }

    /// Whether the preview encoder (PNG) can represent this format.
    pub fn png_supported(&self) -> (r: bool)
        ensures
            r == self.spec_png_supported(),
    {
        match self {
            PixelFormat::Rgb32F => false,
            PixelFormat::Rgba32F => false,
            _ => true,
        }
    }

    /// Whether every sample of this format is a single byte.  Such a
    /// buffer has no alignment requirement, so the resampler accepts
    /// it unconditionally; multi-byte samples may be refused on the
    /// buffer's alignment.
    pub open spec fn spec_single_byte_samples(self) -> bool {
        match self {
            PixelFormat::L8 => true,
            PixelFormat::La8 => true,
            PixelFormat::Rgb8 => true,
            PixelFormat::Rgba8 => true,
            _ => false,
        }
    }

    /// Whether the master encoder (TIFF) can represent this format:
    /// everything except luminance-with-alpha.
    pub open spec fn spec_tiff_supported(self) -> bool {
        match self {
            PixelFormat::La8 => false,
            PixelFormat::La16 => false,
            _ => true,
        }
    }

    /// Whether the master encoder (TIFF) can represent this format.
    pub fn tiff_supported(&self) -> (r: bool)
        ensures
            r == self.spec_tiff_supported(),
    {
        match self {
            PixelFormat::La8 => false,
            PixelFormat::La16 => false,
            _ => true,
        }
    }
}

/// image's color type, opaque to verification.
#[verifier::external_type_specification]
#[verifier::external_body]
pub struct ExColorType(image::ColorType);

/// The pipeline's pixel format for each color type of the image
/// crate, or `None` for one the pipeline does not model.
#[verifier::external_body]
pub(crate) fn pixel_format_of(color: image::ColorType) -> Option<PixelFormat> {
    match color {
        image::ColorType::L8 => Some(PixelFormat::L8),
        image::ColorType::La8 => Some(PixelFormat::La8),
        image::ColorType::Rgb8 => Some(PixelFormat::Rgb8),
        image::ColorType::Rgba8 => Some(PixelFormat::Rgba8),
        image::ColorType::L16 => Some(PixelFormat::L16),
        image::ColorType::La16 => Some(PixelFormat::La16),
        image::ColorType::Rgb16 => Some(PixelFormat::Rgb16),
        image::ColorType::Rgba16 => Some(PixelFormat::Rgba16),
        image::ColorType::Rgb32F => Some(PixelFormat::Rgb32F),
        image::ColorType::Rgba32F => Some(PixelFormat::Rgba32F),
        _ => None,
    }
}

/// Decoded pixel data: a tightly packed buffer of `width * height`
/// pixels in the given format.
pub struct DecodedImage {
    /// Width in pixels.
    pub width: u32,
    /// Height in pixels.
    pub height: u32,
    /// Channel count and bit depth of each pixel.
    pub format: PixelFormat,
    /// The packed pixel buffer, rows top to bottom.
    pub bytes: Vec<u8>,
}

impl DecodedImage {
    /// The buffer holds exactly one pixel's worth of bytes per pixel.
    pub open spec fn wf(self) -> bool {
        self.bytes@.len() == self.width as int * self.height as int
            * self.format.spec_bytes_per_pixel()
    }
}

} // verus!
