//! The loader facade's decision logic: choosing a decode path from the file
//! extension, turning a header probe into a load plan, and reporting the
//! output shape of a load.
//!
//! The decoding collaborators live outside the library. They hand it plain
//! values: the file extension, the outcome of probing the container header,
//! and the decoded per-channel sample arrays, which
//! [`crate::reshape::reshape_uniform`] packs.

use vstd::prelude::*;

use crate::formats::ExrPixelFormat;
use crate::reshape::widened_channel_count;

verus! {

/// Which decoder a file is handed to: the simple Radiance-style decoder for
/// the `hdr` extension, and the tiled/scanline container decoder for every
/// other file.
#[derive(Clone, Copy, Debug, PartialEq, Eq, Structural)]
pub enum DecodePath {
    Hdr,
    Exr,
}

/// The shape a load reports to the caller: dimensions, interleaved channel
/// count, and the element type of the returned buffer.
#[derive(Clone, Copy, Debug, PartialEq, Eq, Structural)]
pub struct LoadShape {
    pub width: u32,
    pub height: u32,
    pub channel_count: u32,
    pub format: ExrPixelFormat,
}

/// Why a load failed before any buffer was produced.
#[derive(Clone, Copy, Debug, PartialEq, Eq, Structural)]
pub enum LoadError {
    /// The container header could not be parsed, or the file could not be
    /// read at all.
    UnreadableHeader,
    /// The channels of the container do not share one sample type; mixed-type
    /// channel sets are unsupported.
    MixedSampleTypes,
}

/// The outcome of probing a container file's header, as the decoder reports
/// it: either the header was unreadable, or it gave the dimensions and the
/// uniform sample type of all channels (`Unknown` when the channels have no
/// single sample type).
#[derive(Clone, Copy, Debug, PartialEq, Eq, Structural)]
pub enum HeaderProbe {
    Unreadable,
    Parsed { width: u32, height: u32, sample_type: ExrPixelFormat },
}

/// What a load of a container file does next: fail with a fully initialised
/// sentinel shape, or decode the pixel data at the given dimensions and
/// sample type.
#[derive(Clone, Copy, Debug, PartialEq, Eq, Structural)]
pub enum LoadPlan {
    Fail { shape: LoadShape, error: LoadError },
    Decode { width: u32, height: u32, format: ExrPixelFormat },
}

/// The sentinel shape reported on every load failure: zero dimensions, zero
/// channels, format `Unknown`. A caller can always branch on it safely.
pub open spec fn spec_failure_shape() -> LoadShape {
    LoadShape { width: 0, height: 0, channel_count: 0, format: ExrPixelFormat::Unknown }
}

/// The load plan that a header probe determines: an unreadable header fails
/// with the sentinel shape, a header without one uniform sample type fails
/// with the sentinel shape, and any other header proceeds to decoding.
pub open spec fn spec_load_plan(probe: HeaderProbe) -> LoadPlan {
    match probe {
        HeaderProbe::Unreadable => LoadPlan::Fail {
            shape: spec_failure_shape(),
            error: LoadError::UnreadableHeader,
        },
        HeaderProbe::Parsed { width, height, sample_type } => {
            if sample_type == ExrPixelFormat::Unknown {
                LoadPlan::Fail { shape: spec_failure_shape(), error: LoadError::MixedSampleTypes }
            } else {
                LoadPlan::Decode { width, height, format: sample_type }
            }
        },
    }
}

/// The sentinel shape reported on every load failure.
pub fn failure_shape() -> (s: LoadShape)
    ensures
        s == spec_failure_shape(),
{
    LoadShape { width: 0, height: 0, channel_count: 0, format: ExrPixelFormat::Unknown }
}

/// Chooses the decode path for a file from its extension: exactly the
/// extension `hdr` (case-sensitive) goes to the Radiance-style decoder, and
/// every other extension to the container decoder.
pub fn choose_decode_path(extension: &String) -> (p: DecodePath)
    ensures
        p == (if extension@ == "hdr"@ {
            DecodePath::Hdr
        } else {
            DecodePath::Exr
        }),
{
    let hdr: String = "hdr".to_owned();
    if *extension == hdr {
        DecodePath::Hdr
    } else {
        DecodePath::Exr
    }
}

/// Turns the outcome of probing a container header into a load plan, exactly
/// as [`spec_load_plan`] gives it: failures report the sentinel shape and
/// their error, and no failure ever proceeds to decoding.
pub fn plan_exr_load(probe: HeaderProbe) -> (plan: LoadPlan)
    ensures
        plan == spec_load_plan(probe),
{
    match probe {
        HeaderProbe::Unreadable => LoadPlan::Fail {
            shape: failure_shape(),
            error: LoadError::UnreadableHeader,
        },
        HeaderProbe::Parsed { width, height, sample_type } => {
            if sample_type == ExrPixelFormat::Unknown {
                LoadPlan::Fail { shape: failure_shape(), error: LoadError::MixedSampleTypes }
            } else {
                LoadPlan::Decode { width, height, format: sample_type }
            }
        },
    }
}

/// The shape reported for a successfully decoded Radiance-style image: its
/// own dimensions, three channels, 32-bit-float samples.
pub fn hdr_shape(width: u32, height: u32) -> (s: LoadShape)
    ensures
        s == (LoadShape {
            width,
            height,
            channel_count: 3,
            format: ExrPixelFormat::F32,
        }),
{
    LoadShape { width, height, channel_count: 3, format: ExrPixelFormat::F32 }
}

/// The shape reported for a successfully decoded and reshaped container
/// image: the header's dimensions and sample type, and the channel count the
/// reshaper reported (the source's own count, widened per the widening rule).
pub fn decoded_shape(width: u32, height: u32, channel_count: usize, format: ExrPixelFormat) -> (s:
    LoadShape)
    requires
        channel_count <= u32::MAX,
    ensures
        s == (LoadShape { width, height, channel_count: channel_count as u32, format }),
{
    LoadShape { width, height, channel_count: channel_count as u32, format }
}

/// Failure-sentinel law: a load whose header is unreadable, and a load whose
/// channels have no single sample type, both report the sentinel shape —
/// zero dimensions, zero channels, format `Unknown` — and never proceed to
/// decoding, so no partial buffer exists.
pub proof fn lemma_failure_sentinel(probe: HeaderProbe)
    requires
        probe == HeaderProbe::Unreadable || probe matches HeaderProbe::Parsed {
            sample_type: ExrPixelFormat::Unknown,
            ..
        },
    ensures
        spec_load_plan(probe) matches LoadPlan::Fail { shape, .. } && shape
            == spec_failure_shape(),
{
}

/// Widening law: a load that reshapes a three-channel 16-bit-float source
/// always reports four channels, never three, and no other source's channel
/// count is changed.
pub proof fn lemma_f16_widening(source_channels: int)
    ensures
        widened_channel_count(ExrPixelFormat::F16, 3) == 4,
        source_channels != 3 ==> widened_channel_count(ExrPixelFormat::F16, source_channels)
            == source_channels,
        forall|f: ExrPixelFormat| f != ExrPixelFormat::F16 ==> #[trigger] widened_channel_count(
            f,
            source_channels,
        ) == source_channels,
{
}

} // verus!
