use exr_marshal::formats::ExrEncoding;
use exr_marshal::formats::ExrFormat;
use exr_marshal::formats::ExrPixelFormat;
use exr_marshal::formats::channels_of_arity;
use exr_marshal::policy::BlockLayout;
use exr_marshal::policy::Compression;
use exr_marshal::policy::LineOrder;
use exr_marshal::policy::encoding_policy;
use exr_marshal::writer::WriteError;
use exr_marshal::writer::pixel_rgb;
use exr_marshal::writer::pixel_rgba;
use exr_marshal::writer::plan_write;

#[test]
fn policy_uncompressed() {
    let p = encoding_policy(ExrEncoding::Uncompressed);
    assert_eq!(p.compression, Compression::Uncompressed);
    assert_eq!(p.blocks, BlockLayout::ScanLines);
    assert_eq!(p.line_order, LineOrder::Increasing);
}

#[test]
fn policy_rle() {
    let p = encoding_policy(ExrEncoding::RLE);
    assert_eq!(p.compression, Compression::Rle);
    assert_eq!(p.blocks, BlockLayout::Tiles(64, 64));
    assert_eq!(p.line_order, LineOrder::Unspecified);
}

#[test]
fn policy_zip1() {
    let p = encoding_policy(ExrEncoding::ZIP1);
    assert_eq!(p.compression, Compression::Zip1);
    assert_eq!(p.blocks, BlockLayout::ScanLines);
    assert_eq!(p.line_order, LineOrder::Increasing);
}

#[test]
fn policy_zip16() {
    let p = encoding_policy(ExrEncoding::ZIP16);
    assert_eq!(p.compression, Compression::Zip16);
    assert_eq!(p.blocks, BlockLayout::ScanLines);
    assert_eq!(p.line_order, LineOrder::Increasing);
}

#[test]
fn policy_piz() {
    let p = encoding_policy(ExrEncoding::PIZ);
    assert_eq!(p.compression, Compression::Piz);
    assert_eq!(p.blocks, BlockLayout::Tiles(256, 256));
    assert_eq!(p.line_order, LineOrder::Unspecified);
}

#[test]
fn plan_write_rejects_unknown_format() {
    let r = plan_write(4, 4, ExrPixelFormat::Unknown, ExrEncoding::ZIP16, ExrFormat::Rgba);
    assert_eq!(r, Err(WriteError::UnknownFormat));
}

#[test]
fn plan_write_derives_policy_and_size() {
    let plan = plan_write(6, 5, ExrPixelFormat::F32, ExrEncoding::PIZ, ExrFormat::Rgb).unwrap();
    assert_eq!(plan.policy.compression, Compression::Piz);
    assert_eq!(plan.policy.blocks, BlockLayout::Tiles(256, 256));
    assert_eq!(plan.policy.line_order, LineOrder::Unspecified);
    assert_eq!(plan.arity, ExrFormat::Rgb);
    assert_eq!(plan.sample_count, 6 * 5 * 4);
}

#[test]
fn arity_channel_counts() {
    assert_eq!(channels_of_arity(ExrFormat::Rgb), 3);
    assert_eq!(channels_of_arity(ExrFormat::Rgba), 4);
}

#[test]
fn pixel_accessors_read_four_wide_stride() {
    // Two pixels wide, one tall, four samples per pixel.
    let data: Vec<u32> = vec![1, 2, 3, 4, 5, 6, 7, 8];
    assert_eq!(pixel_rgba(&data, 2, 1, 0, 0), (1, 2, 3, 4));
    assert_eq!(pixel_rgba(&data, 2, 1, 1, 0), (5, 6, 7, 8));
    // The RGB path reads the same stride and discards the fourth sample.
    assert_eq!(pixel_rgb(&data, 2, 1, 1, 0), (5, 6, 7));
}

#[test]
fn pixel_accessors_row_major() {
    let data: Vec<f32> = (0..16).map(|v: i32| v as f32).collect();
    // Width 2, height 2: pixel (x = 0, y = 1) starts at (1 * 2 + 0) * 4 = 8.
    assert_eq!(pixel_rgba(&data, 2, 2, 0, 1), (8.0, 9.0, 10.0, 11.0));
}
