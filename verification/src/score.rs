//! Similarity Scorer: pixel-difference energy between two equal-sized
//! single-channel images, and the alternate histogram feature path.
//!
//! The energy metric is carried as the exact integer sum of squared pixel
//! differences, which is the square of the L2 norm of the element-wise
//! absolute difference. Thresholding on the squared value is exactly
//! equivalent to thresholding the norm itself on the squared threshold.

use vstd::prelude::*;
use crate::image::GrayImage;
use crate::image::MAX_DIM;

verus! {

/// Fixed-point scale of a min-max normalized histogram bin: a bin value of
/// `HISTOGRAM_SCALE` stands for 1.0.
pub const HISTOGRAM_SCALE: u64 = 1000000;

/// Squared difference of two intensities.
pub open spec fn sq_diff(a: u8, b: u8) -> int {
    (a - b) * (a - b)
}

/// Sum of squared differences over the first `n` entries of two rows.
pub open spec fn row_sq_diff(a: Seq<u8>, b: Seq<u8>, n: int) -> int
    decreases n,
{
    if n <= 0 {
        0
    } else {
        row_sq_diff(a, b, n - 1) + sq_diff(a[n - 1], b[n - 1])
    }
}

/// Sum of squared pixel differences over the first `rows` rows of two
/// pixel grids of width `w`.
pub open spec fn total_sq_diff(a: Seq<Seq<u8>>, b: Seq<Seq<u8>>, w: int, rows: int) -> int
    decreases rows,
{
    if rows <= 0 {
        0
    } else {
        total_sq_diff(a, b, w, rows - 1) + row_sq_diff(a[rows - 1], b[rows - 1], w)
    }
}

/// The pixel-difference energy of two equal-sized `w` by `h` pixel grids:
/// the sum of squared differences over every pixel, i.e. the squared L2
/// norm of the element-wise absolute difference.
pub open spec fn energy_rows(a: Seq<Seq<u8>>, b: Seq<Seq<u8>>, w: int, h: int) -> int {
    total_sq_diff(a, b, w, h)
}

/// The pixel-difference energy of two equal-sized images.
pub open spec fn spec_energy(a: GrayImage, b: GrayImage) -> int {
    energy_rows(a.rows(), b.rows(), a.width as int, a.height as int)
}

proof fn lemma_row_sq_diff_bound(a: Seq<u8>, b: Seq<u8>, n: int)
    requires
        n >= 0,
    ensures
        0 <= row_sq_diff(a, b, n) <= 65025 * n,
    decreases n,
{
    if n > 0 {
        lemma_row_sq_diff_bound(a, b, n - 1);
        assert(0 <= sq_diff(a[n - 1], b[n - 1]) <= 65025) by (nonlinear_arith);
    }
}

proof fn lemma_total_sq_diff_bound(a: Seq<Seq<u8>>, b: Seq<Seq<u8>>, w: int, rows: int)
    requires
        rows >= 0,
        w >= 0,
    ensures
        0 <= total_sq_diff(a, b, w, rows) <= 65025 * rows * w,
    decreases rows,
{
    if rows > 0 {
        lemma_total_sq_diff_bound(a, b, w, rows - 1);
        lemma_row_sq_diff_bound(a[rows - 1], b[rows - 1], w);
        assert(65025 * (rows - 1) * w + 65025 * w == 65025 * rows * w) by (nonlinear_arith);
    }
}

/// The energy of two `w` by `h` pixel grids is non-negative and at most
/// `h * w` times the largest squared intensity difference, 255 * 255.
pub proof fn lemma_energy_rows_bound(a: Seq<Seq<u8>>, b: Seq<Seq<u8>>, w: int, h: int)
    requires
        w >= 0,
        h >= 0,
    ensures
        0 <= energy_rows(a, b, w, h) <= 65025 * h * w,
{
    lemma_total_sq_diff_bound(a, b, w, h);
}

/// A row compared against itself contributes no energy.
proof fn lemma_row_sq_diff_self_zero(a: Seq<u8>, n: int)
    ensures
        row_sq_diff(a, a, n) == 0,
    decreases n,
{
    if n > 0 {
        lemma_row_sq_diff_self_zero(a, n - 1);
    }
}

/// Scoring any image against itself yields a pixel-difference energy of
/// zero: the metric separates a face from itself perfectly.
pub proof fn lemma_compare_self_zero(a: GrayImage)
    ensures
        spec_energy(a, a) == 0,
{
    lemma_total_self_zero(a.rows(), a.width as int, a.height as int);
}

/// Any pixel grid compared against itself has zero energy.
pub proof fn lemma_total_self_zero(a: Seq<Seq<u8>>, w: int, rows: int)
    ensures
        total_sq_diff(a, a, w, rows) == 0,
    decreases rows,
{
    if rows > 0 {
        lemma_total_self_zero(a, w, rows - 1);
        lemma_row_sq_diff_self_zero(a[rows - 1], w);
    }
}

/// Computes the pixel-difference energy of two equal-sized images: the sum
/// of squared differences over all pixels. Zero means identical images;
/// mismatched sizes are a defect excluded by the precondition, not a
/// runtime condition.
pub fn compare_faces(a: &GrayImage, b: &GrayImage) -> (result: u64)
    requires
        a.wf(),
        b.wf(),
        a.width == b.width,
        a.height == b.height,
    ensures
        result == spec_energy(*a, *b),
        *a == *b ==> result == 0,
{
    let w: usize = a.width;
    let h: usize = a.height;
    let mut sum: u64 = 0;
    let mut y: usize = 0;
    while y < h
        invariant
            a.wf(),
            b.wf(),
            w == a.width,
            h == a.height,
            a.width == b.width,
            a.height == b.height,
            y <= h,
            sum == total_sq_diff(a.rows(), b.rows(), w as int, y as int),
        decreases h - y,
    {
        let mut rsum: u64 = 0;
        let mut x: usize = 0;
        while x < w
            invariant
                a.wf(),
                b.wf(),
                w == a.width,
                h == a.height,
                a.width == b.width,
                a.height == b.height,
                y < h,
                x <= w,
                rsum == row_sq_diff(a.pixels@[y as int]@, b.pixels@[y as int]@, x as int),
            decreases w - x,
        {
            let pa: u8 = a.pixels[y][x];
            let pb: u8 = b.pixels[y][x];
            let d: u64 = if pa >= pb {
                (pa - pb) as u64
            } else {
                (pb - pa) as u64
            };
            proof {
                lemma_row_sq_diff_bound(a.pixels@[y as int]@, b.pixels@[y as int]@, x as int);
                assert(d * d == sq_diff(pa, pb) && d * d <= 65025) by (nonlinear_arith)
                    requires
                        pa >= pb ==> d == pa - pb,
                        pa < pb ==> d == pb - pa,
                        pa <= 255,
                        pb <= 255,
                        d >= 0,
                ;
                assert(rsum + d * d <= 65025 * (x + 1)) by (nonlinear_arith)
                    requires
                        rsum <= 65025 * x,
                        d * d <= 65025,
                ;
                assert(65025 * ((x + 1) as int) <= 65025 * (MAX_DIM as int));
            }
            rsum = rsum + d * d;
            x = x + 1;
        }
        proof {
            lemma_total_sq_diff_bound(a.rows(), b.rows(), w as int, y as int);
            lemma_row_sq_diff_bound(a.pixels@[y as int]@, b.pixels@[y as int]@, w as int);
            assert(a.rows()[y as int] == a.pixels@[y as int]@);
            assert(b.rows()[y as int] == b.pixels@[y as int]@);
            assert(sum + rsum <= 0xffff_ffff_ffff_ffff) by (nonlinear_arith)
                requires
                    0 <= sum <= 65025 * y * w,
                    0 <= rsum <= 65025 * w,
                    y < h,
                    h <= MAX_DIM,
                    w <= MAX_DIM,
                    MAX_DIM == 0x10_0000,
            ;
        }
        sum = sum + rsum;
        y = y + 1;
    }
    proof {
        if *a == *b {
            lemma_compare_self_zero(*a);
        }
    }
    sum
}

/// Number of entries equal to `v` among the first `n` of a row.
pub open spec fn row_count(row: Seq<u8>, v: u8, n: int) -> int
    decreases n,
{
    if n <= 0 {
        0
    } else {
        row_count(row, v, n - 1) + if row[n - 1] == v {
            1int
        } else {
            0int
        }
    }
}

/// Number of pixels of intensity `v` in the first `rows` rows of `im`.
pub open spec fn total_count(im: GrayImage, v: u8, rows: int) -> int
    decreases rows,
{
    if rows <= 0 {
        0
    } else {
        total_count(im, v, rows - 1) + row_count(im.pixels@[rows - 1]@, v, im.width as int)
    }
}

/// Number of pixels of intensity `v` in the whole image.
pub open spec fn spec_count(im: GrayImage, v: u8) -> int {
    total_count(im, v, im.height as int)
}

proof fn lemma_row_count_bound(row: Seq<u8>, v: u8, n: int)
    requires
        n >= 0,
    ensures
        0 <= row_count(row, v, n) <= n,
    decreases n,
{
    if n > 0 {
        lemma_row_count_bound(row, v, n - 1);
    }
}

proof fn lemma_total_count_bound(im: GrayImage, v: u8, rows: int)
    requires
        rows >= 0,
    ensures
        0 <= total_count(im, v, rows) <= rows * im.width,
    decreases rows,
{
    if rows > 0 {
        lemma_total_count_bound(im, v, rows - 1);
        lemma_row_count_bound(im.pixels@[rows - 1]@, v, im.width as int);
        assert((rows - 1) * im.width + im.width == rows * im.width) by (nonlinear_arith);
    }
}

/// No intensity occurs more often than the image has pixels.
pub proof fn lemma_count_bound(im: GrayImage, v: u8)
    ensures
        0 <= spec_count(im, v) <= im.height * im.width,
{
    lemma_total_count_bound(im, v, im.height as int);
}

/// The smallest bin of the 256-bin intensity histogram of `im`, over bins
/// `0 .. n`.
pub open spec fn min_count(im: GrayImage, n: int) -> int
    decreases n,
{
    if n <= 1 {
        spec_count(im, 0)
    } else {
        let m = min_count(im, n - 1);
        let c = spec_count(im, (n - 1) as u8);
        if c < m {
            c
        } else {
            m
        }
    }
}

/// The largest bin of the 256-bin intensity histogram of `im`, over bins
/// `0 .. n`.
pub open spec fn max_count(im: GrayImage, n: int) -> int
    decreases n,
{
    if n <= 1 {
        spec_count(im, 0)
    } else {
        let m = max_count(im, n - 1);
        let c = spec_count(im, (n - 1) as u8);
        if c > m {
            c
        } else {
            m
        }
    }
}

/// One bin of the min-max normalized histogram: counts are mapped to the
/// fixed-point interval `[0, HISTOGRAM_SCALE]`; a flat histogram (all bins
/// equal) maps to all zeros.
pub open spec fn norm_bin(c: int, lo: int, hi: int) -> int {
    if hi <= lo {
        0
    } else {
        (c - lo) * HISTOGRAM_SCALE / (hi - lo)
    }
}

/// Counts, for each of the 256 intensities, how many pixels of `face` have
/// it.
pub fn intensity_histogram(face: &GrayImage) -> (hist: Vec<u64>)
    requires
        face.wf(),
    ensures
        hist@.len() == 256,
        forall|v: int|
            0 <= v < 256 ==> #[trigger] hist@[v] == spec_count(*face, v as u8),
{
    let w: usize = face.width;
    let h: usize = face.height;
    let mut hist: Vec<u64> = Vec::new();
    let mut i: usize = 0;
    while i < 256
        invariant
            i <= 256,
            hist@.len() == i,
            forall|v: int| 0 <= v < i ==> #[trigger] hist@[v] == 0,
        decreases 256 - i,
    {
        hist.push(0);
        i = i + 1;
    }
    let mut y: usize = 0;
    while y < h
        invariant
            face.wf(),
            w == face.width,
            h == face.height,
            y <= h,
            hist@.len() == 256,
            forall|v: int|
                0 <= v < 256 ==> #[trigger] hist@[v] == total_count(*face, v as u8, y as int),
        decreases h - y,
    {
        let mut x: usize = 0;
        while x < w
            invariant
                face.wf(),
                w == face.width,
                h == face.height,
                y < h,
                x <= w,
                hist@.len() == 256,
                forall|v: int|
                    0 <= v < 256 ==> #[trigger] hist@[v] == total_count(*face, v as u8, y as int)
                        + row_count(face.pixels@[y as int]@, v as u8, x as int),
            decreases w - x,
        {
            let p: u8 = face.pixels[y][x];
            proof {
                lemma_total_count_bound(*face, p, y as int);
                lemma_row_count_bound(face.pixels@[y as int]@, p, x as int);
                assert(y * w + x < MAX_DIM * MAX_DIM) by (nonlinear_arith)
                    requires
                        y < h,
                        x < w,
                        w <= MAX_DIM,
                        h <= MAX_DIM,
                ;
                assert(total_count(*face, p, y as int) <= y * w) by (nonlinear_arith)
                    requires
                        total_count(*face, p, y as int) <= (y as int) * face.width,
                        w == face.width,
                ;
            }
            let c: u64 = hist[p as usize];
            hist.set(p as usize, c + 1);
            x = x + 1;
        }
        y = y + 1;
    }
    hist
}

/// Computes the min-max normalized 256-bin intensity histogram of a
/// single-channel face: each bin holds the pixel count of its intensity,
/// mapped to the fixed-point interval `[0, HISTOGRAM_SCALE]`.
pub fn compute_histogram(face: &GrayImage) -> (hist: Vec<u64>)
    requires
        face.wf(),
    ensures
        hist@.len() == 256,
        forall|v: int|
            0 <= v < 256 ==> #[trigger] hist@[v] == norm_bin(
                spec_count(*face, v as u8),
                min_count(*face, 256),
                max_count(*face, 256),
            ),
{
    let counts = intensity_histogram(face);
    let mut lo: u64 = counts[0];
    let mut hi: u64 = counts[0];
    let mut i: usize = 1;
    while i < 256
        invariant
            face.wf(),
            counts@.len() == 256,
            forall|v: int|
                0 <= v < 256 ==> #[trigger] counts@[v] == spec_count(*face, v as u8),
            1 <= i <= 256,
            lo == min_count(*face, i as int),
            hi == max_count(*face, i as int),
        decreases 256 - i,
    {
        let c = counts[i];
        if c < lo {
            lo = c;
        }
        if c > hi {
            hi = c;
        }
        i = i + 1;
    }
    let mut hist: Vec<u64> = Vec::new();
    let mut v: usize = 0;
    while v < 256
        invariant
            face.wf(),
            counts@.len() == 256,
            forall|b: int|
                0 <= b < 256 ==> #[trigger] counts@[b] == spec_count(*face, b as u8),
            lo == min_count(*face, 256),
            hi == max_count(*face, 256),
            v <= 256,
            hist@.len() == v,
            forall|b: int|
                0 <= b < v ==> #[trigger] hist@[b] == norm_bin(
                    spec_count(*face, b as u8),
                    min_count(*face, 256),
                    max_count(*face, 256),
                ),
        decreases 256 - v,
    {
        let c = counts[v];
        let bin: u64 = if hi <= lo {
            0
        } else {
            proof {
                lemma_min_le_count(*face, 256, v as int);
                lemma_count_bound(*face, v as u8);
                assert((c - lo) * (HISTOGRAM_SCALE as int) <= 0xffff_ffff_ffff_ffff)
                    by (nonlinear_arith)
                    requires
                        0 <= c - lo,
                        c <= face.height * face.width,
                        face.height <= MAX_DIM,
                        face.width <= MAX_DIM,
                        MAX_DIM == 0x10_0000,
                        HISTOGRAM_SCALE == 1000000,
                ;
            }
            (c - lo) * HISTOGRAM_SCALE / (hi - lo)
        };
        hist.push(bin);
        v = v + 1;
    }
    hist
}

/// The smallest histogram bin is no larger than any particular bin.
proof fn lemma_min_le_count(im: GrayImage, n: int, v: int)
    requires
        0 <= v < n,
    ensures
        min_count(im, n) <= spec_count(im, v as u8),
    decreases n,
{
    if n <= 1 {
        assert(v == 0);
    } else {
        if v == n - 1 {
        } else {
            lemma_min_le_count(im, n - 1, v);
        }
    }
}

} // verus!
