//! Region Normalizer resampling: bilinear interpolation of a single-channel
//! image down (or up) to the fixed 128x128 face resolution. All positions
//! are carried in 1/256 pixel fixed-point units, so the computation is
//! exact integer arithmetic.

use vstd::prelude::*;
use crate::image::GrayImage;

verus! {

/// Side length, in pixels, of a Normalized Face.
pub const NORMALIZED_SIZE: usize = 128;

/// Fixed-point source position (in 1/256 pixel units) that output index
/// `j` of a 128-long output axis maps to on a source axis of length `src`,
/// under the half-pixel-center convention, clamped at zero:
/// `(j + 1/2) * src / 128 - 1/2`, scaled by 256.
pub open spec fn src_pos(j: int, src: int) -> int {
    let t = (2 * j + 1) * src;
    if t < 128 {
        0
    } else {
        t - 128
    }
}

/// Index of the source sample at or below the mapped position of output
/// index `j`.
pub open spec fn src_lo(j: int, src: int) -> int {
    src_pos(j, src) / 256
}

/// Index of the source sample used above the mapped position: the next
/// one, or the last index of the axis when there is no next one.
pub open spec fn src_hi(j: int, src: int) -> int {
    if src_lo(j, src) + 1 < src {
        src_lo(j, src) + 1
    } else {
        src - 1
    }
}

/// Fractional part, in 1/256 units, of the mapped position of output
/// index `j`: the blending weight of the upper sample.
pub open spec fn src_frac(j: int, src: int) -> int {
    src_pos(j, src) % 256
}

/// Linear interpolation between `a` and `b` with weight `f` in 1/256
/// units, scaled by 256.
pub open spec fn lerp(a: u8, b: u8, f: int) -> int {
    (256 - f) * a + f * b
}

/// Blends the four source samples around a mapped position with fractional
/// parts `fx` and `fy` (in 1/256 units), rounded to nearest.
pub open spec fn blend(p00: u8, p10: u8, p01: u8, p11: u8, fx: int, fy: int) -> int {
    ((256 - fy) * lerp(p00, p10, fx) + fy * lerp(p01, p11, fx) + 32768) / 65536
}

/// The intensity that bilinear resampling to 128x128 gives output pixel
/// `(x, y)`: the four source pixels around the mapped position, blended by
/// the fractional parts of that position.
pub open spec fn resized_pixel(im: GrayImage, x: int, y: int) -> int {
    let x0 = src_lo(x, im.width as int);
    let x1 = src_hi(x, im.width as int);
    let y0 = src_lo(y, im.height as int);
    let y1 = src_hi(y, im.height as int);
    blend(
        im.pixel(x0, y0),
        im.pixel(x1, y0),
        im.pixel(x0, y1),
        im.pixel(x1, y1),
        src_frac(x, im.width as int),
        src_frac(y, im.height as int),
    )
}

/// The sample indices of any output index lie inside the source axis, and
/// the fractional part is a proper 1/256 weight.
pub proof fn lemma_src_coord_bounds(j: int, src: int)
    requires
        0 <= j < 128,
        src >= 1,
    ensures
        0 <= src_lo(j, src) < src,
        0 <= src_hi(j, src) < src,
        src_lo(j, src) <= src_hi(j, src),
        0 <= src_frac(j, src) < 256,
{
    assert((2 * j + 1) * src <= 255 * src) by (nonlinear_arith)
        requires
            0 <= j < 128,
            src >= 1,
    ;
    assert(src_pos(j, src) <= 255 * src - 128 || src_pos(j, src) == 0);
    assert(src_pos(j, src) / 256 < src);
}

/// Computes one output pixel of the 128x128 resampling of `im`.
fn bilinear_sample(im: &GrayImage, x: usize, y: usize) -> (result: u8)
    requires
        im.wf(),
        im.nonempty(),
        x < NORMALIZED_SIZE,
        y < NORMALIZED_SIZE,
    ensures
        result == resized_pixel(*im, x as int, y as int),
{
    let w: u64 = im.width as u64;
    let h: u64 = im.height as u64;
    proof {
        assert((2 * (x as int) + 1) * w <= 255 * w && (2 * (y as int) + 1) * h <= 255 * h)
            by (nonlinear_arith)
            requires
                x < 128,
                y < 128,
                w >= 1,
                h >= 1,
        ;
        lemma_src_coord_bounds(x as int, w as int);
        lemma_src_coord_bounds(y as int, h as int);
    }
    let tx: u64 = (2 * (x as u64) + 1) * w;
    let ty: u64 = (2 * (y as u64) + 1) * h;
    let px: u64 = if tx < 128 {
        0
    } else {
        tx - 128
    };
    let py: u64 = if ty < 128 {
        0
    } else {
        ty - 128
    };
    let x0: u64 = px / 256;
    let fx: u64 = px % 256;
    let y0: u64 = py / 256;
    let fy: u64 = py % 256;
    let x1: u64 = if x0 + 1 < w {
        x0 + 1
    } else {
        w - 1
    };
    let y1: u64 = if y0 + 1 < h {
        y0 + 1
    } else {
        h - 1
    };
    let p00: u8 = im.pixels[y0 as usize][x0 as usize];
    let p10: u8 = im.pixels[y0 as usize][x1 as usize];
    let p01: u8 = im.pixels[y1 as usize][x0 as usize];
    let p11: u8 = im.pixels[y1 as usize][x1 as usize];
    proof {
        assert((256 - fx) * p00 <= 65280 && fx * p10 <= 65280 && (256 - fx) * p01 <= 65280 && fx
            * p11 <= 65280 && (256 - fx) * p00 + fx * p10 <= 65280 && (256 - fx) * p01 + fx * p11
            <= 65280) by (nonlinear_arith)
            requires
                0 <= fx < 256,
                p00 <= 255,
                p10 <= 255,
                p01 <= 255,
                p11 <= 255,
        ;
    }
    let top: u64 = (256 - fx) * (p00 as u64) + fx * (p10 as u64);
    let bot: u64 = (256 - fx) * (p01 as u64) + fx * (p11 as u64);
    proof {
        assert((256 - fy) * top <= 16711680 && fy * bot <= 16711680 && (256 - fy) * top + fy * bot
            <= 16711680) by (nonlinear_arith)
            requires
                0 <= fy < 256,
                top <= 65280,
                bot <= 65280,
        ;
    }
    let v: u64 = ((256 - fy) * top + fy * bot + 32768) / 65536;
    assert(v <= 255);
    v as u8
}

/// Resamples a single-channel image of any non-empty size to exactly
/// 128x128 with bilinear interpolation. Deterministic: the output is a
/// pure function of the input pixels.
pub fn resize_image(image: &GrayImage) -> (result: GrayImage)
    requires
        image.wf(),
        image.nonempty(),
    ensures
        result.wf(),
        result.width == NORMALIZED_SIZE,
        result.height == NORMALIZED_SIZE,
        forall|x: int, y: int|
            0 <= x < NORMALIZED_SIZE && 0 <= y < NORMALIZED_SIZE ==> #[trigger] result.pixel(x, y)
                == resized_pixel(*image, x, y),
{
    let mut rows: Vec<Vec<u8>> = Vec::new();
    let mut y: usize = 0;
    while y < NORMALIZED_SIZE
        invariant
            image.wf(),
            image.nonempty(),
            y <= NORMALIZED_SIZE,
            rows@.len() == y,
            forall|yy: int| 0 <= yy < y ==> (#[trigger] rows@[yy])@.len() == NORMALIZED_SIZE,
            forall|xx: int, yy: int|
                0 <= xx < NORMALIZED_SIZE && 0 <= yy < y ==> #[trigger] rows@[yy]@[xx]
                    == resized_pixel(*image, xx, yy),
        decreases NORMALIZED_SIZE - y,
    {
        let mut row: Vec<u8> = Vec::new();
        let mut x: usize = 0;
        while x < NORMALIZED_SIZE
            invariant
                image.wf(),
                image.nonempty(),
                y < NORMALIZED_SIZE,
                x <= NORMALIZED_SIZE,
                row@.len() == x,
                forall|xx: int|
                    0 <= xx < x ==> #[trigger] row@[xx] == resized_pixel(*image, xx, y as int),
            decreases NORMALIZED_SIZE - x,
        {
            let v = bilinear_sample(image, x, y);
            row.push(v);
            x = x + 1;
        }
        rows.push(row);
        y = y + 1;
    }
    GrayImage { width: NORMALIZED_SIZE, height: NORMALIZED_SIZE, pixels: rows }
}

} // verus!
