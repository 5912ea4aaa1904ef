//! The per-file import result.
//!
//! One [`ImageInfo`] is produced for every source file of a batch:
//! display name (the fingerprint), artifact paths, pixel dimensions,
//! human-readable sizes and the derived DPI.  When the source already
//! fits the preview bound, no separate preview artifact exists and the
//! preview descriptor equals the master's.

use vstd::prelude::*;

verus! {

/// Width and height of an artifact, in pixels.
#[derive(Clone, Copy, Debug, PartialEq, Eq, Structural)]
pub struct XYDimensions {
    /// Width in pixels.
    pub x: u32,
    /// Height in pixels.
    pub y: u32,
}

/// Pixel dimensions of the two artifacts.
#[derive(Clone, Copy, Debug, PartialEq, Eq, Structural)]
pub struct ImageDimensions {
    /// Dimensions of the preview artifact.
    pub lowres: XYDimensions,
    /// Dimensions of the master artifact.
    pub highres: XYDimensions,
}

/// Human-readable encoded sizes of the two artifacts.
#[derive(Clone, Debug, PartialEq, Eq)]
pub struct ImageSize {
    /// Size of the preview artifact.
    pub lowres: String,
    /// Size of the master artifact.
    pub highres: String,
}

/// Store paths of the two artifacts.
#[derive(Clone, Debug, PartialEq, Eq)]
pub struct ImagePaths {
    /// Path of the preview artifact.
    pub lowres: String,
    /// Path of the master artifact.
    pub highres: String,
}

/// Everything reported to the caller for one imported source file.
#[derive(Clone, Debug, PartialEq, Eq)]
pub struct ImageInfo {
    /// Display name: the source's fingerprint.
    pub image_name: String,
    /// Human-readable artifact sizes.
    pub size: ImageSize,
    /// Artifact pixel dimensions.
    pub dimensions: ImageDimensions,
    /// Artifact store paths.
    pub paths: ImagePaths,
    /// Derived resolution, when known.
    pub dpi: Option<u32>,
}

/// A preview descriptor distinct from the master's: store path, width,
/// height and human-readable size.
pub struct PreviewDescriptor {
    /// Store path of the preview artifact.
    pub path: String,
    /// Width in pixels.
    pub width: u32,
    /// Height in pixels.
    pub height: u32,
    /// Human-readable encoded size.
    pub size: String,
}

/// Assemble the result record for one file.
///
/// With a distinct preview descriptor the record reports it as the
/// preview; without one — the source already fits the bound — the
/// preview artifact equals the master, and the record repeats the
/// master's path, dimensions and size under the preview headings.
pub fn assemble_image_info(
    image_name: String,
    master_path: String,
    master_width: u32,
    master_height: u32,
    master_size: String,
    preview: Option<PreviewDescriptor>,
    dpi: Option<u32>,
) -> (r: ImageInfo)
    ensures
        r.image_name@ == image_name@,
        r.dpi == dpi,
        r.paths.highres@ == master_path@,
        r.dimensions.highres == (XYDimensions { x: master_width, y: master_height }),
        r.size.highres@ == master_size@,
        match preview {
            Some(p) => r.paths.lowres@ == p.path@ && r.dimensions.lowres == (XYDimensions {
                x: p.width,
                y: p.height,
            }) && r.size.lowres@ == p.size@,
            None => r.paths.lowres@ == master_path@ && r.dimensions.lowres
                == r.dimensions.highres && r.size.lowres@ == master_size@,
        },
{
    let (lowres_path, lowres_dims, lowres_size) = match preview {
        Some(p) => (p.path, XYDimensions { x: p.width, y: p.height }, p.size),
        None => (
            master_path.clone(),
            XYDimensions { x: master_width, y: master_height },
            master_size.clone(),
        ),
    };
    ImageInfo {
        image_name,
        size: ImageSize { lowres: lowres_size, highres: master_size },
        dimensions: ImageDimensions {
            lowres: lowres_dims,
            highres: XYDimensions { x: master_width, y: master_height },
        },
        paths: ImagePaths { lowres: lowres_path, highres: master_path },
        dpi,
    }
}

} // verus!
