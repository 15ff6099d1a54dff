//! The closed sets of sample formats, output arities and write encodings.

use vstd::prelude::*;

verus! {

/// Requested compression/layout encoding for writing the tiled/scanline
/// container format. Each value maps to exactly one concrete
/// [`crate::policy::EncodingPolicy`].
#[derive(Clone, Copy, Debug, PartialEq, Eq, Structural)]
pub enum ExrEncoding {
    Uncompressed,
    RLE,
    ZIP1,
    ZIP16,
    PIZ,
}

/// The element type of a stored sample. `Unknown` is the failure tag: it is
/// reported when a source file has no single sample type, and it is never a
/// legal format for a write request.
#[derive(Clone, Copy, Debug, PartialEq, Eq, Structural)]
pub enum ExrPixelFormat {
    Unknown,
    U32,
    F16,
    F32,
}

/// Output channel arity: three interleaved channels per pixel or four.
#[derive(Clone, Copy, Debug, PartialEq, Eq, Structural)]
pub enum ExrFormat {
    Rgb,
    Rgba,
}

/// The number of interleaved channels per pixel that an output arity denotes.
pub open spec fn arity_channels(arity: ExrFormat) -> int {
    match arity {
        ExrFormat::Rgb => 3,
        ExrFormat::Rgba => 4,
    }
}

/// Exec mirror of [`arity_channels`].
pub fn channels_of_arity(arity: ExrFormat) -> (n: usize)
    ensures
        n == arity_channels(arity),
{
    match arity {
        ExrFormat::Rgb => 3,
        ExrFormat::Rgba => 4,
    }
}

} // verus!
