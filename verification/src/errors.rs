//! Typed errors surfaced by the pipeline components.

use vstd::prelude::*;

verus! {

/// Everything that can go wrong while importing one source file.
///
/// Each component surfaces one of these to the orchestrator; the
/// orchestrator attaches the failing file's identity and continues the
/// batch, so one bad file never loses the results of its siblings.
#[derive(Clone, Copy, Debug, PartialEq, Eq, Structural)]
pub enum ImportError {
    /// A file could not be opened, read, written or created.
    IoError,
    /// The container format of the source could not be identified.
    FormatError,
    /// A probed dimension exceeds the configured ceiling; rejected
    /// before any full decode is attempted.
    DimensionTooLarge,
    /// The pixel data is corrupt or truncated.
    DecodeError,
    /// The channel/bit-depth combination cannot be represented by the
    /// encoder, and must not be silently degraded.
    UnsupportedPixelFormat,
    /// The encoder failed to produce artifact bytes.
    EncodeError,
}

impl ImportError {
    /// A short human-readable description of the error.
    pub fn message(&self) -> (r: &'static str)
        ensures
            r@ == self.spec_message(),
    {
        match self {
            ImportError::IoError => "failed to read or write a file",
            ImportError::FormatError => "unrecognized image container format",
            ImportError::DimensionTooLarge => "probed dimensions exceed the configured ceiling",
            ImportError::DecodeError => "corrupt or truncated pixel data",
            ImportError::UnsupportedPixelFormat => "pixel format not representable by the encoder",
            ImportError::EncodeError => "failed to encode the derived artifact",
        }
    }

    /// The description promised by [`Self::message`].
    pub open spec fn spec_message(self) -> Seq<char> {
        match self {
            ImportError::IoError => "failed to read or write a file"@,
            ImportError::FormatError => "unrecognized image container format"@,
            ImportError::DimensionTooLarge => "probed dimensions exceed the configured ceiling"@,
            ImportError::DecodeError => "corrupt or truncated pixel data"@,
            ImportError::UnsupportedPixelFormat => "pixel format not representable by the encoder"@,
            ImportError::EncodeError => "failed to encode the derived artifact"@,
        }
    }
}

} // verus!
