use exr_marshal::formats::ExrPixelFormat;
use exr_marshal::loader::DecodePath;
use exr_marshal::loader::HeaderProbe;
use exr_marshal::loader::LoadError;
use exr_marshal::loader::LoadPlan;
use exr_marshal::loader::LoadShape;
use exr_marshal::loader::choose_decode_path;
use exr_marshal::loader::decoded_shape;
use exr_marshal::loader::failure_shape;
use exr_marshal::loader::hdr_shape;
use exr_marshal::loader::plan_exr_load;

const SENTINEL: LoadShape = LoadShape {
    width: 0,
    height: 0,
    channel_count: 0,
    format: ExrPixelFormat::Unknown,
};

#[test]
fn hdr_extension_picks_radiance_decoder() {
    assert_eq!(choose_decode_path(&String::from("hdr")), DecodePath::Hdr);
}

#[test]
fn other_extensions_pick_container_decoder() {
    assert_eq!(choose_decode_path(&String::from("exr")), DecodePath::Exr);
    assert_eq!(choose_decode_path(&String::from("")), DecodePath::Exr);
    // Matching is case-sensitive and exact.
    assert_eq!(choose_decode_path(&String::from("HDR")), DecodePath::Exr);
    assert_eq!(choose_decode_path(&String::from("hdrx")), DecodePath::Exr);
}

#[test]
fn unreadable_header_fails_with_sentinel() {
    let plan = plan_exr_load(HeaderProbe::Unreadable);
    assert_eq!(
        plan,
        LoadPlan::Fail { shape: SENTINEL, error: LoadError::UnreadableHeader }
    );
}

#[test]
fn mixed_sample_types_fail_with_sentinel() {
    let plan = plan_exr_load(HeaderProbe::Parsed {
        width: 640,
        height: 480,
        sample_type: ExrPixelFormat::Unknown,
    });
    assert_eq!(
        plan,
        LoadPlan::Fail { shape: SENTINEL, error: LoadError::MixedSampleTypes }
    );
}

#[test]
fn uniform_header_plans_decode() {
    let plan = plan_exr_load(HeaderProbe::Parsed {
        width: 640,
        height: 480,
        sample_type: ExrPixelFormat::F16,
    });
    assert_eq!(
        plan,
        LoadPlan::Decode { width: 640, height: 480, format: ExrPixelFormat::F16 }
    );
}

#[test]
fn failure_shape_is_sentinel() {
    assert_eq!(failure_shape(), SENTINEL);
}

#[test]
fn hdr_shape_is_three_channel_f32() {
    assert_eq!(
        hdr_shape(320, 200),
        LoadShape { width: 320, height: 200, channel_count: 3, format: ExrPixelFormat::F32 }
    );
}

#[test]
fn decoded_shape_reports_reshaped_count() {
    assert_eq!(
        decoded_shape(8, 4, 4, ExrPixelFormat::F16),
        LoadShape { width: 8, height: 4, channel_count: 4, format: ExrPixelFormat::F16 }
    );
}
