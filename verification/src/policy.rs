//! The format/encoding selector: a fixed, total mapping from a requested
//! [`ExrEncoding`] to the concrete container parameters used when writing.
//!
//! The table is a set of deliberate performance/compression tradeoffs, not
//! arbitrary defaults: uncompressed and deflate output use full scanlines in
//! increasing order for long contiguous runs and parallel chunking, while
//! run-length output uses small 64-by-64 tiles for run locality and the
//! wavelet codec uses large 256-by-256 tiles to amortise its transform.

use vstd::prelude::*;

use crate::formats::ExrEncoding;

verus! {

/// The compression codec written into the container.
#[derive(Clone, Copy, Debug, PartialEq, Eq, Structural)]
pub enum Compression {
    Uncompressed,
    Rle,
    Zip1,
    Zip16,
    Piz,
}

/// How the image is partitioned into compression blocks: whole scanlines, or
/// square tiles of the given side lengths.
#[derive(Clone, Copy, Debug, PartialEq, Eq, Structural)]
pub enum BlockLayout {
    ScanLines,
    Tiles(u32, u32),
}

/// The order in which lines are written.
#[derive(Clone, Copy, Debug, PartialEq, Eq, Structural)]
pub enum LineOrder {
    Increasing,
    Unspecified,
}

/// The concrete container parameters derived from a requested encoding.
/// Recomputed per write call, never stored.
#[derive(Clone, Copy, Debug, PartialEq, Eq, Structural)]
pub struct EncodingPolicy {
    pub compression: Compression,
    pub blocks: BlockLayout,
    pub line_order: LineOrder,
}

/// The fixed policy table. Every encoding maps to exactly one policy.
pub open spec fn spec_encoding_policy(encoding: ExrEncoding) -> EncodingPolicy {
    match encoding {
        ExrEncoding::Uncompressed => EncodingPolicy {
            compression: Compression::Uncompressed,
            blocks: BlockLayout::ScanLines,
            line_order: LineOrder::Increasing,
        },
        ExrEncoding::RLE => EncodingPolicy {
            compression: Compression::Rle,
            blocks: BlockLayout::Tiles(64, 64),
            line_order: LineOrder::Unspecified,
        },
        ExrEncoding::ZIP1 => EncodingPolicy {
            compression: Compression::Zip1,
            blocks: BlockLayout::ScanLines,
            line_order: LineOrder::Increasing,
        },
        ExrEncoding::ZIP16 => EncodingPolicy {
            compression: Compression::Zip16,
            blocks: BlockLayout::ScanLines,
            line_order: LineOrder::Increasing,
        },
        ExrEncoding::PIZ => EncodingPolicy {
            compression: Compression::Piz,
            blocks: BlockLayout::Tiles(256, 256),
            line_order: LineOrder::Unspecified,
        },
    }
}

/// Computes the container parameters for a requested encoding, exactly as the
/// fixed table gives them.
pub fn encoding_policy(encoding: ExrEncoding) -> (p: EncodingPolicy)
    ensures
        p == spec_encoding_policy(encoding),
{
    match encoding {
        ExrEncoding::Uncompressed => EncodingPolicy {
            compression: Compression::Uncompressed,
            blocks: BlockLayout::ScanLines,
            line_order: LineOrder::Increasing,
        },
        ExrEncoding::RLE => EncodingPolicy {
            compression: Compression::Rle,
            blocks: BlockLayout::Tiles(64, 64),
            line_order: LineOrder::Unspecified,
        },
        ExrEncoding::ZIP1 => EncodingPolicy {
            compression: Compression::Zip1,
            blocks: BlockLayout::ScanLines,
            line_order: LineOrder::Increasing,
        },
        ExrEncoding::ZIP16 => EncodingPolicy {
            compression: Compression::Zip16,
            blocks: BlockLayout::ScanLines,
            line_order: LineOrder::Increasing,
        },
        ExrEncoding::PIZ => EncodingPolicy {
            compression: Compression::Piz,
            blocks: BlockLayout::Tiles(256, 256),
            line_order: LineOrder::Unspecified,
        },
    }
}

/// Encoding-policy totality law: each of the five encodings yields the policy
/// of the fixed table, spelled out value by value.
pub proof fn lemma_encoding_policy_table()
    ensures
        spec_encoding_policy(ExrEncoding::Uncompressed) == (EncodingPolicy {
            compression: Compression::Uncompressed,
            blocks: BlockLayout::ScanLines,
            line_order: LineOrder::Increasing,
        }),
        spec_encoding_policy(ExrEncoding::RLE) == (EncodingPolicy {
            compression: Compression::Rle,
            blocks: BlockLayout::Tiles(64, 64),
            line_order: LineOrder::Unspecified,
        }),
        spec_encoding_policy(ExrEncoding::ZIP1) == (EncodingPolicy {
            compression: Compression::Zip1,
            blocks: BlockLayout::ScanLines,
            line_order: LineOrder::Increasing,
        }),
        spec_encoding_policy(ExrEncoding::ZIP16) == (EncodingPolicy {
            compression: Compression::Zip16,
            blocks: BlockLayout::ScanLines,
            line_order: LineOrder::Increasing,
        }),
        spec_encoding_policy(ExrEncoding::PIZ) == (EncodingPolicy {
            compression: Compression::Piz,
            blocks: BlockLayout::Tiles(256, 256),
            line_order: LineOrder::Unspecified,
        }),
{
}

} // verus!
