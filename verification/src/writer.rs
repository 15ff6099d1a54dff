//! The writer facade's decision logic: validating a write request, deriving
//! the container parameters, and reading pixels out of the caller's flat
//! buffer.
//!
//! The caller supplies the buffer in four-wide stride whatever the requested
//! output arity: the writer reads four samples per pixel and discards the
//! fourth when the arity is RGB. The encode collaborator lives outside the
//! library; it is handed the plan and a per-pixel accessor built from
//! [`pixel_rgba`] or [`pixel_rgb`].

use vstd::prelude::*;

use crate::formats::ExrEncoding;
use crate::formats::ExrFormat;
use crate::formats::ExrPixelFormat;
use crate::loader::HeaderProbe;
use crate::loader::LoadPlan;
use crate::loader::spec_load_plan;
use crate::policy::EncodingPolicy;
use crate::policy::spec_encoding_policy;
use crate::reshape::widened_channel_count;

verus! {

/// Why a write request is refused before anything is encoded.
#[derive(Clone, Copy, Debug, PartialEq, Eq, Structural)]
pub enum WriteError {
    /// The declared sample format is `Unknown`, which is never a legal write
    /// request.
    UnknownFormat,
}

/// Everything the encode collaborator needs for one write call: the container
/// parameters, the output arity, and the number of samples the caller's
/// buffer must hold (always four per pixel).
#[derive(Clone, Copy, Debug, PartialEq, Eq, Structural)]
pub struct WritePlan {
    pub policy: EncodingPolicy,
    pub arity: ExrFormat,
    pub sample_count: usize,
}

/// The plan a write request determines: a request with format `Unknown` is
/// refused, and every other request yields the policy of the fixed table,
/// the requested arity, and a buffer size of four samples per pixel.
pub open spec fn spec_write_plan(
    width: u32,
    height: u32,
    format: ExrPixelFormat,
    encoding: ExrEncoding,
    arity: ExrFormat,
) -> Result<WritePlan, WriteError> {
    if format == ExrPixelFormat::Unknown {
        Err(WriteError::UnknownFormat)
    } else {
        Ok(
            WritePlan {
                policy: spec_encoding_policy(encoding),
                arity,
                sample_count: (width * height * 4) as usize,
            },
        )
    }
}

/// Validates a write request and derives its plan, exactly as
/// [`spec_write_plan`] gives it: the result is an error if and only if the
/// declared format is `Unknown`.
pub fn plan_write(
    width: u32,
    height: u32,
    format: ExrPixelFormat,
    encoding: ExrEncoding,
    arity: ExrFormat,
) -> (r: Result<WritePlan, WriteError>)
    requires
        width * height * 4 <= usize::MAX,
    ensures
        r == spec_write_plan(width, height, format, encoding, arity),
{
    if format == ExrPixelFormat::Unknown {
        Err(WriteError::UnknownFormat)
    } else {
        let sample_count: usize = (width as usize) * (height as usize) * 4;
        Ok(
            WritePlan {
                policy: crate::policy::encoding_policy(encoding),
                arity,
                sample_count,
            },
        )
    }
}

/// The position of slot `c` of the pixel at column `x`, row `y` in a
/// pixel-major buffer of `width`-column rows with four samples per pixel.
pub open spec fn pixel_slot(width: int, x: int, y: int, c: int) -> int {
    (y * width + x) * 4 + c
}

/// The four samples of one pixel of a caller-supplied four-stride buffer, in
/// slot order.
pub fn pixel_rgba<T: Copy>(data: &Vec<T>, width: usize, height: usize, x: usize, y: usize) -> (r: (
    T,
    T,
    T,
    T,
))
    requires
        x < width,
        y < height,
        data@.len() == width * height * 4,
    ensures
        r.0 == data@[pixel_slot(width as int, x as int, y as int, 0)],
        r.1 == data@[pixel_slot(width as int, x as int, y as int, 1)],
        r.2 == data@[pixel_slot(width as int, x as int, y as int, 2)],
        r.3 == data@[pixel_slot(width as int, x as int, y as int, 3)],
{
    // Establishes that the buffer's length, and with it every slot position,
    // fits in usize.
    let n: usize = data.len();
    proof {
        assert((y * width + x) * 4 + 3 < width * height * 4) by (nonlinear_arith)
            requires
                x < width,
                y < height,
        ;
    }
    let base: usize = (y * width + x) * 4;
    (data[base], data[base + 1], data[base + 2], data[base + 3])
}

/// The first three samples of one pixel of a caller-supplied four-stride
/// buffer: the RGB write path reads the same buffer as the RGBA path and
/// discards the fourth sample of every pixel.
pub fn pixel_rgb<T: Copy>(data: &Vec<T>, width: usize, height: usize, x: usize, y: usize) -> (r: (
    T,
    T,
    T,
))
    requires
        x < width,
        y < height,
        data@.len() == width * height * 4,
    ensures
        r.0 == data@[pixel_slot(width as int, x as int, y as int, 0)],
        r.1 == data@[pixel_slot(width as int, x as int, y as int, 1)],
        r.2 == data@[pixel_slot(width as int, x as int, y as int, 2)],
{
    let (red, green, blue, _alpha) = pixel_rgba(data, width, height, x, y);
    (red, green, blue)
}

/// Round-trip shape law: a write of dimensions `width` by `height` in a
/// known format produces a container whose channels are the written arity at
/// those dimensions and that sample type. Probing such a header plans a
/// decode at the same dimensions and format, and reshaping its channels
/// reports the written arity — widened to four channels exactly when the
/// format is 16-bit float and the arity is RGB.
pub proof fn lemma_round_trip_shape(
    width: u32,
    height: u32,
    format: ExrPixelFormat,
    encoding: ExrEncoding,
    arity: ExrFormat,
)
    requires
        spec_write_plan(width, height, format, encoding, arity) is Ok,
    ensures
        spec_load_plan(HeaderProbe::Parsed { width, height, sample_type: format })
            == (LoadPlan::Decode { width, height, format }),
        widened_channel_count(format, crate::formats::arity_channels(arity)) == (
        if format == ExrPixelFormat::F16 && arity == ExrFormat::Rgb {
            4int
        } else {
            crate::formats::arity_channels(arity)
        }),
{
}

} // verus!
