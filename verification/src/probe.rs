//! Cheap inspection of an image file's dimensions and format.
//!
//! The probe reads only container headers, so its cost is proportional
//! to the header, not the pixel data.  Its ceiling check runs strictly
//! before any full decode is attempted downstream, guarding against
//! pathological and decompression-bomb inputs.

use vstd::prelude::*;
use crate::errors::ImportError;
use crate::pixel::PixelFormat;
use image::ImageDecoder;

verus! {

/// The container format of a source, as far as the master step cares:
/// a source that is already in the archival container is copied byte
/// for byte instead of being re-encoded.
#[derive(Clone, Copy, Debug, PartialEq, Eq, Structural)]
pub enum Container {
    /// The archival container itself.
    Tiff,
    /// Any other recognized container.
    Other,
}

/// What a probe reports: dimensions, pixel format and container kind.
#[derive(Clone, Copy, Debug, PartialEq, Eq, Structural)]
pub struct ProbeInfo {
    /// Width in pixels.
    pub width: u32,
    /// Height in pixels.
    pub height: u32,
    /// Channel count and bit depth of the pixel data.
    pub format: PixelFormat,
    /// Whether the source is already in the archival container.
    pub container: Container,
}

/// What probing a byte content yields: a function of the bytes alone.
/// `None` when the container cannot be identified or its pixel format
/// is not one the pipeline models.
pub uninterp spec fn spec_probe(bytes: Seq<u8>) -> Option<ProbeInfo>;

/// Relies on image's `ImageReader`: guesses the container format from
/// the content, reads dimensions and color type from the header alone,
/// all a function of the bytes.
#[verifier::external_body]
fn probe_raw(bytes: &[u8]) -> (r: Result<ProbeInfo, ImportError>)
    ensures
        r matches Ok(p) ==> spec_probe(bytes@) == Some(p),
        r matches Err(e) ==> spec_probe(bytes@) is None && (e == ImportError::FormatError
            || e == ImportError::UnsupportedPixelFormat),
{
    let reader = match image::ImageReader::new(std::io::Cursor::new(bytes)).with_guessed_format() {
        Ok(r) => r, Err(_) => return Err(ImportError::FormatError),
    };
    let tiff = matches!(reader.format(), Some(image::ImageFormat::Tiff));
    let container = if tiff { Container::Tiff } else { Container::Other };
    let decoder = match reader.into_decoder() {
        Ok(d) => d, Err(_) => return Err(ImportError::FormatError),
    };
    let (width, height) = decoder.dimensions();
    let format = match crate::pixel::pixel_format_of(decoder.color_type()) {
        Some(f) => f, None => return Err(ImportError::UnsupportedPixelFormat),
    };
    Ok(ProbeInfo { width, height, format, container })
}

/// The ceiling guard: accepts exactly the dimensions whose width and
/// height both fit the ceiling, and rejects everything else as
/// [`ImportError::DimensionTooLarge`].
pub fn check_dimensions(width: u32, height: u32, ceiling: u32) -> (r: Result<(), ImportError>)
    ensures
        r is Ok <==> width <= ceiling && height <= ceiling,
        r matches Err(e) ==> e == ImportError::DimensionTooLarge,
{
    if width <= ceiling && height <= ceiling {
        Ok(())
    } else {
        Err(ImportError::DimensionTooLarge)
    }
}

/// Probe a source's byte content and validate its size against the
/// ceiling.
///
/// Oversized rejection: whenever the probe identifies the content and
/// either probed dimension exceeds the ceiling, the result is exactly
/// `DimensionTooLarge`, so no downstream decode is ever reached for
/// such an input.
pub fn probe_image(bytes: &[u8], ceiling: u32) -> (r: Result<ProbeInfo, ImportError>)
    ensures
        r matches Ok(p) ==> spec_probe(bytes@) == Some(p) && p.width <= ceiling && p.height
            <= ceiling,
        match spec_probe(bytes@) {
            Some(p) => {
                &&& ((p.width > ceiling || p.height > ceiling) <==> r == Err::<
                    ProbeInfo,
                    ImportError,
                >(ImportError::DimensionTooLarge))
                &&& (p.width <= ceiling && p.height <= ceiling ==> r == Ok::<
                    ProbeInfo,
                    ImportError,
                >(p))
            },
            None => r matches Err(e) && (e == ImportError::FormatError
                || e == ImportError::UnsupportedPixelFormat),
        },
{
    let info = match probe_raw(bytes) {
        Ok(p) => p,
        Err(e) => {
            return Err(e);
        },
    };
    match check_dimensions(info.width, info.height, ceiling) {
        Ok(()) => Ok(info),
        Err(e) => Err(e),
    }
}

} // verus!
