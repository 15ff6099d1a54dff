//! The channel reshaper: packing per-channel sample arrays into one flat,
//! channel-interleaved pixel buffer.
//!
//! A decoded image arrives as a list of channels, each channel one contiguous
//! array of `width * height` samples. The caller wants a single buffer laid
//! out pixel-major, channel-minor. The packing rules are deliberate and must
//! hold exactly:
//!
//! - *Exact reshaping* ([`pack_reversed`]): source channel `c` of `n` lands at
//!   output slot `n - 1 - c` of each pixel, because the on-disk channel order
//!   is opposite to the order the caller expects.
//! - *Widening* ([`pack_widened`]): a three-channel 16-bit-float source is
//!   widened to four output channels, the first three slots filled by the
//!   reversed rule over slots `0..3` and the fourth slot filled with the
//!   supplied alpha sample (the representation of 1.0).
//! - *Defaulted RGBA* ([`pack_rgba_defaulted`]): every pixel starts as
//!   (zero, zero, zero, one) and source channel `c` overwrites slot `c`
//!   for `c < 4`.
//!
//! The element type is generic: the same verified packing serves 16-bit
//! floats, 32-bit floats and 32-bit unsigned integers; only the element type
//! and the default sample values differ.

use vstd::arithmetic::div_mod::lemma_fundamental_div_mod_converse;
use vstd::prelude::*;

use crate::formats::ExrPixelFormat;

verus! {

/// The mathematical model of a decoded image's channel data: one sequence of
/// samples per channel, in source order.
pub open spec fn grid_of<T>(channels: Vec<Vec<T>>) -> Seq<Seq<T>> {
    channels@.map_values(|c: Vec<T>| c@)
}

/// Every channel of `grid` holds exactly `n_pixels` samples.
pub open spec fn uniform_grid<T>(grid: Seq<Seq<T>>, n_pixels: int) -> bool {
    forall|c: int| 0 <= c < grid.len() ==> (#[trigger] grid[c]).len() == n_pixels
}

/// The flat buffer produced by exact reshaping: element `k` belongs to pixel
/// `k / n`, output slot `k % n`, and is drawn from source channel
/// `n - 1 - (k % n)`, where `n` is the channel count.
pub open spec fn reversed_flat<T>(grid: Seq<Seq<T>>, n_pixels: int) -> Seq<T> {
    Seq::new(
        (n_pixels * grid.len()) as nat,
        |k: int| grid[grid.len() - 1 - (k % (grid.len() as int))][k / (grid.len() as int)],
    )
}

/// The flat buffer produced by widening a three-channel source to four
/// output channels: slot 3 of every pixel holds `alpha`, and slot `j < 3`
/// holds source channel `2 - j`.
pub open spec fn widened_flat<T>(grid: Seq<Seq<T>>, n_pixels: int, alpha: T) -> Seq<T> {
    Seq::new(
        (n_pixels * 4) as nat,
        |k: int|
            if k % 4 == 3 {
                alpha
            } else {
                grid[2 - (k % 4)][k / 4]
            },
    )
}

/// The flat buffer produced by the defaulted-RGBA rule: every pixel starts as
/// (zero, zero, zero, one) and source channel `j` overwrites slot `j` for
/// `j < 4`; channels past the fourth are ignored.
pub open spec fn rgba_defaulted_flat<T>(
    grid: Seq<Seq<T>>,
    n_pixels: int,
    zero: T,
    one: T,
) -> Seq<T> {
    Seq::new(
        (n_pixels * 4) as nat,
        |k: int|
            if k % 4 < grid.len() {
                grid[k % 4][k / 4]
            } else if k % 4 == 3 {
                one
            } else {
                zero
            },
    )
}

/// The channel count a load reports: a three-channel 16-bit-float source is
/// widened to four channels; every other source keeps its own channel count.
pub open spec fn widened_channel_count(format: ExrPixelFormat, source_channels: int) -> int {
    if format == ExrPixelFormat::F16 && source_channels == 3 {
        4
    } else {
        source_channels
    }
}

/// Position `i * n + j` of a pixel-major buffer with `n` slots per pixel is
/// slot `j` of pixel `i`.
proof fn lemma_flat_index(n: int, n_pixels: int, i: int, j: int)
    requires
        0 < n,
        0 <= j < n,
        0 <= i < n_pixels,
    ensures
        0 <= i * n + j < n_pixels * n,
        (i * n + j) % n == j,
        (i * n + j) / n == i,
{
    assert(0 <= i * n + j < n_pixels * n) by (nonlinear_arith)
        requires
            0 < n,
            0 <= j < n,
            0 <= i < n_pixels,
    ;
    lemma_fundamental_div_mod_converse(i * n + j, n, i, j);
}

/// Reversed-channel law: under exact reshaping, slot `j` of pixel `i` holds
/// sample `i` of source channel `n - 1 - j`. In particular a three-channel
/// source with per-pixel values (a, b, c) packs to pixels (c, b, a).
pub proof fn lemma_reversed_entry<T>(grid: Seq<Seq<T>>, n_pixels: int, i: int, j: int)
    requires
        0 < grid.len(),
        0 <= i < n_pixels,
        0 <= j < grid.len(),
    ensures
        reversed_flat(grid, n_pixels)[i * grid.len() + j] == grid[grid.len() - 1 - j][i],
{
    lemma_flat_index(grid.len() as int, n_pixels, i, j);
}

/// Widened-pixel law: in a widened buffer, slot `j < 3` of pixel `i` holds
/// sample `i` of source channel `2 - j`.
pub proof fn lemma_widened_entry<T>(grid: Seq<Seq<T>>, n_pixels: int, alpha: T, i: int, j: int)
    requires
        0 <= i < n_pixels,
        0 <= j < 3,
    ensures
        widened_flat(grid, n_pixels, alpha)[i * 4 + j] == grid[2 - j][i],
{
    lemma_flat_index(4, n_pixels, i, j);
}

/// Default-alpha law: in a widened buffer the fourth slot of every pixel is
/// exactly the supplied alpha sample, the representation of 1.0.
pub proof fn lemma_default_alpha<T>(grid: Seq<Seq<T>>, n_pixels: int, alpha: T, i: int)
    requires
        0 <= i < n_pixels,
    ensures
        widened_flat(grid, n_pixels, alpha)[i * 4 + 3] == alpha,
{
    lemma_flat_index(4, n_pixels, i, 3);
}

/// Default-alpha law for the defaulted-RGBA rule: when the source has exactly
/// three channels, the fourth slot of every pixel is exactly the supplied
/// `one` sample.
pub proof fn lemma_rgba_defaulted_alpha<T>(
    grid: Seq<Seq<T>>,
    n_pixels: int,
    zero: T,
    one: T,
    i: int,
)
    requires
        grid.len() == 3,
        0 <= i < n_pixels,
    ensures
        rgba_defaulted_flat(grid, n_pixels, zero, one)[i * 4 + 3] == one,
{
    lemma_flat_index(4, n_pixels, i, 3);
}

/// Defaulted-RGBA law for the slots a channel does reach: slot `j` of pixel
/// `i` holds sample `i` of source channel `j` when channel `j` exists, and the
/// default (zero for colour, one for alpha) otherwise.
pub proof fn lemma_rgba_defaulted_entry<T>(
    grid: Seq<Seq<T>>,
    n_pixels: int,
    zero: T,
    one: T,
    i: int,
    j: int,
)
    requires
        0 <= i < n_pixels,
        0 <= j < 4,
    ensures
        j < grid.len() ==> rgba_defaulted_flat(grid, n_pixels, zero, one)[i * 4 + j] == grid[j][i],
        j >= grid.len() && j < 3 ==> rgba_defaulted_flat(grid, n_pixels, zero, one)[i * 4 + j]
            == zero,
        j == 3 && grid.len() <= 3 ==> rgba_defaulted_flat(grid, n_pixels, zero, one)[i * 4 + j]
            == one,
{
    lemma_flat_index(4, n_pixels, i, j);
}

/// Packs a decoded image by exact reshaping: the output holds
/// `width * height * n` samples, pixel-major, and slot `j` of pixel `i` is
/// sample `i` of source channel `n - 1 - j` (`n` the source channel count).
pub fn pack_reversed<T: Copy>(channels: &Vec<Vec<T>>, width: usize, height: usize) -> (out: Vec<
    T,
>)
    requires
        width * height <= usize::MAX,
        width * height * channels@.len() <= usize::MAX,
        uniform_grid(grid_of(*channels), width * height),
    ensures
        out@ == reversed_flat(grid_of(*channels), width * height),
        out@.len() == width * height * channels@.len(),
{
    let n_pixels: usize = width * height;
    let nc: usize = channels.len();
    let ghost flat = reversed_flat(grid_of(*channels), n_pixels as int);
    let mut out: Vec<T> = Vec::new();
    proof {
        assert(0 * nc == 0) by (nonlinear_arith);
    }
    for i in 0..n_pixels
        invariant
            nc == channels@.len(),
            n_pixels == width * height,
            n_pixels * nc <= usize::MAX,
            uniform_grid(grid_of(*channels), n_pixels as int),
            flat == reversed_flat(grid_of(*channels), n_pixels as int),
            out@.len() == i * nc,
            forall|k: int| 0 <= k < out@.len() ==> out@[k] == flat[k],
    {
        for j in 0..nc
            invariant
                nc == channels@.len(),
                n_pixels == width * height,
                n_pixels * nc <= usize::MAX,
                i < n_pixels,
                uniform_grid(grid_of(*channels), n_pixels as int),
                flat == reversed_flat(grid_of(*channels), n_pixels as int),
                out@.len() == i * nc + j,
                forall|k: int| 0 <= k < out@.len() ==> out@[k] == flat[k],
        {
            proof {
                lemma_flat_index(nc as int, n_pixels as int, i as int, j as int);
                assert(grid_of(*channels)[nc - 1 - j] == channels@[nc - 1 - j]@);
            }
            let v: T = channels[nc - 1 - j][i];
            out.push(v);
        }
        proof {
            assert((i + 1) * nc == i * nc + nc) by (nonlinear_arith);
        }
    }
    proof {
        assert(out@ =~= flat);
    }
    out
}

/// Packs a three-channel source into a four-channel buffer: the first three
/// slots of each pixel follow the reversed rule over slots `0..3`, and the
/// fourth slot is filled with `alpha`, the representation of 1.0.
pub fn pack_widened<T: Copy>(channels: &Vec<Vec<T>>, width: usize, height: usize, alpha: T) -> (out:
    Vec<T>)
    requires
        channels@.len() == 3,
        width * height <= usize::MAX,
        width * height * 4 <= usize::MAX,
        uniform_grid(grid_of(*channels), width * height),
    ensures
        out@ == widened_flat(grid_of(*channels), width * height, alpha),
        out@.len() == width * height * 4,
{
    let n_pixels: usize = width * height;
    let ghost flat = widened_flat(grid_of(*channels), n_pixels as int, alpha);
    let mut out: Vec<T> = Vec::new();
    for i in 0..n_pixels
        invariant
            channels@.len() == 3,
            n_pixels == width * height,
            n_pixels * 4 <= usize::MAX,
            uniform_grid(grid_of(*channels), n_pixels as int),
            flat == widened_flat(grid_of(*channels), n_pixels as int, alpha),
            out@.len() == i * 4,
            forall|k: int| 0 <= k < out@.len() ==> out@[k] == flat[k],
    {
        for j in 0..4usize
            invariant
                channels@.len() == 3,
                n_pixels == width * height,
                n_pixels * 4 <= usize::MAX,
                i < n_pixels,
                uniform_grid(grid_of(*channels), n_pixels as int),
                flat == widened_flat(grid_of(*channels), n_pixels as int, alpha),
                out@.len() == i * 4 + j,
                forall|k: int| 0 <= k < out@.len() ==> out@[k] == flat[k],
        {
            proof {
                lemma_flat_index(4, n_pixels as int, i as int, j as int);
                if j < 3 {
                    assert(grid_of(*channels)[2 - j] == channels@[2 - j]@);
                }
            }
            let v: T = if j == 3 {
                alpha
            } else {
                channels[2 - j][i]
            };
            out.push(v);
        }
    }
    proof {
        assert(out@ =~= flat);
    }
    out
}

/// Packs a source of any channel count into a four-channel buffer by the
/// defaulted-RGBA rule: every pixel starts as (`zero`, `zero`, `zero`, `one`)
/// and source channel `j` overwrites slot `j` for `j < 4`.
pub fn pack_rgba_defaulted<T: Copy>(
    channels: &Vec<Vec<T>>,
    width: usize,
    height: usize,
    zero: T,
    one: T,
) -> (out: Vec<T>)
    requires
        width * height <= usize::MAX,
        width * height * 4 <= usize::MAX,
        uniform_grid(grid_of(*channels), width * height),
    ensures
        out@ == rgba_defaulted_flat(grid_of(*channels), width * height, zero, one),
        out@.len() == width * height * 4,
{
    let n_pixels: usize = width * height;
    let nc: usize = channels.len();
    let ghost flat = rgba_defaulted_flat(grid_of(*channels), n_pixels as int, zero, one);
    let mut out: Vec<T> = Vec::new();
    for i in 0..n_pixels
        invariant
            nc == channels@.len(),
            n_pixels == width * height,
            n_pixels * 4 <= usize::MAX,
            uniform_grid(grid_of(*channels), n_pixels as int),
            flat == rgba_defaulted_flat(grid_of(*channels), n_pixels as int, zero, one),
            out@.len() == i * 4,
            forall|k: int| 0 <= k < out@.len() ==> out@[k] == flat[k],
    {
        for j in 0..4usize
            invariant
                nc == channels@.len(),
                n_pixels == width * height,
                n_pixels * 4 <= usize::MAX,
                i < n_pixels,
                uniform_grid(grid_of(*channels), n_pixels as int),
                flat == rgba_defaulted_flat(grid_of(*channels), n_pixels as int, zero, one),
                out@.len() == i * 4 + j,
                forall|k: int| 0 <= k < out@.len() ==> out@[k] == flat[k],
        {
            proof {
                lemma_flat_index(4, n_pixels as int, i as int, j as int);
                if j < nc {
                    assert(grid_of(*channels)[j as int] == channels@[j as int]@);
                }
            }
            let v: T = if j < nc {
                channels[j][i]
            } else if j == 3 {
                one
            } else {
                zero
            };
            out.push(v);
        }
    }
    proof {
        assert(out@ =~= flat);
    }
    out
}

/// Reshapes a uniformly typed decoded image, applying the widening rule:
/// a three-channel 16-bit-float source yields a four-channel widened buffer,
/// and every other source yields an exactly reshaped buffer with its own
/// channel count. Returns the buffer and the channel count it reports.
pub fn reshape_uniform<T: Copy>(
    channels: &Vec<Vec<T>>,
    width: usize,
    height: usize,
    format: ExrPixelFormat,
    alpha: T,
) -> (r: (Vec<T>, usize))
    requires
        format != ExrPixelFormat::Unknown,
        width * height <= usize::MAX,
        width * height * widened_channel_count(format, channels@.len() as int) <= usize::MAX,
        uniform_grid(grid_of(*channels), width * height),
    ensures
        r.1 == widened_channel_count(format, channels@.len() as int),
        r.0@.len() == width * height * widened_channel_count(format, channels@.len() as int),
        format == ExrPixelFormat::F16 && channels@.len() == 3 ==> r.0@ == widened_flat(
            grid_of(*channels),
            width * height,
            alpha,
        ),
        !(format == ExrPixelFormat::F16 && channels@.len() == 3) ==> r.0@ == reversed_flat(
            grid_of(*channels),
            width * height,
        ),
{
    let nc: usize = channels.len();
    if format == ExrPixelFormat::F16 && nc == 3 {
        let out = pack_widened(channels, width, height, alpha);
        (out, 4)
    } else {
        let out = pack_reversed(channels, width, height);
        (out, nc)
    }
}

} // verus!
