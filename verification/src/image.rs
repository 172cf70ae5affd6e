//! Image types for the pipeline: frames as row-major pixel grids, cropping,
//! and conversion from three-channel color to single-channel intensity.

use vstd::prelude::*;
use crate::geometry::Rect;

verus! {

/// Largest width or height, in pixels, that the pipeline handles. Keeps all
/// index and interpolation arithmetic comfortably inside machine integers.
pub const MAX_DIM: usize = 0x10_0000;

/// A single-channel intensity image: `height` rows of `width` bytes,
/// origin top-left.
#[derive(Debug, Clone, PartialEq, Eq)]
pub struct GrayImage {
    pub width: usize,
    pub height: usize,
    pub pixels: Vec<Vec<u8>>,
}

impl GrayImage {
    /// Every row holds exactly `width` bytes, and the dimensions are small
    /// enough for all pipeline arithmetic.
    pub open spec fn wf(self) -> bool {
        &&& self.pixels@.len() == self.height
        &&& forall|y: int| 0 <= y < self.height ==> (#[trigger] self.pixels@[y])@.len() == self.width
        &&& self.width <= MAX_DIM
        &&& self.height <= MAX_DIM
    }

    /// Intensity at column `x`, row `y`.
    pub open spec fn pixel(self, x: int, y: int) -> u8 {
        self.pixels@[y]@[x]
    }

    /// The pixel grid as a mathematical sequence of rows.
    pub open spec fn rows(self) -> Seq<Seq<u8>> {
        Seq::new(self.pixels@.len(), |y: int| self.pixels@[y]@)
    }

    /// The image has at least one pixel.
    pub open spec fn nonempty(self) -> bool {
        self.width >= 1 && self.height >= 1
    }

    /// Crops out `region`, which must lie wholly inside the image.
    pub fn crop(&self, region: &Rect) -> (result: GrayImage)
        requires
            self.wf(),
            region.width > 0,
            region.height > 0,
            0 <= region.x,
            0 <= region.y,
            region.x + region.width <= self.width,
            region.y + region.height <= self.height,
        ensures
            result.wf(),
            result.width == region.width,
            result.height == region.height,
            forall|x: int, y: int|
                0 <= x < region.width && 0 <= y < region.height ==> #[trigger] result.pixel(x, y)
                    == self.pixel(region.x + x, region.y + y),
    {
        let x0: usize = region.x as usize;
        let y0: usize = region.y as usize;
        let w: usize = region.width as usize;
        let h: usize = region.height as usize;
        let mut rows: Vec<Vec<u8>> = Vec::new();
        let mut y: usize = 0;
        while y < h
            invariant
                self.wf(),
                x0 == region.x,
                y0 == region.y,
                w == region.width,
                h == region.height,
                x0 + w <= self.width,
                y0 + h <= self.height,
                y <= h,
                rows@.len() == y,
                forall|yy: int| 0 <= yy < y ==> (#[trigger] rows@[yy])@.len() == w,
                forall|xx: int, yy: int|
                    0 <= xx < w && 0 <= yy < y ==> #[trigger] rows@[yy]@[xx] == self.pixel(
                        x0 + xx,
                        y0 + yy,
                    ),
            decreases h - y,
        {
            let mut row: Vec<u8> = Vec::new();
            let mut x: usize = 0;
            while x < w
                invariant
                    self.wf(),
                    x0 + w <= self.width,
                    y0 + h <= self.height,
                    y < h,
                    x <= w,
                    row@.len() == x,
                    forall|xx: int|
                        0 <= xx < x ==> #[trigger] row@[xx] == self.pixel(x0 + xx, y0 + y),
                decreases w - x,
            {
                row.push(self.pixels[y0 + y][x0 + x]);
                x = x + 1;
            }
            rows.push(row);
            y = y + 1;
        }
        GrayImage { width: w, height: h, pixels: rows }
    }
}

/// A three-channel color image in blue-green-red byte order: `height` rows
/// of `3 * width` bytes, origin top-left.
#[derive(Debug, Clone, PartialEq, Eq)]
pub struct ColorImage {
    pub width: usize,
    pub height: usize,
    pub pixels: Vec<Vec<u8>>,
}

impl ColorImage {
    /// Every row holds exactly `3 * width` bytes, and the dimensions are
    /// small enough for all pipeline arithmetic.
    pub open spec fn wf(self) -> bool {
        &&& self.pixels@.len() == self.height
        &&& forall|y: int|
            0 <= y < self.height ==> (#[trigger] self.pixels@[y])@.len() == 3 * self.width
        &&& self.width <= MAX_DIM
        &&& self.height <= MAX_DIM
    }

    /// Channel `c` (0 = blue, 1 = green, 2 = red) at column `x`, row `y`.
    pub open spec fn channel(self, x: int, y: int, c: int) -> u8 {
        self.pixels@[y]@[3 * x + c]
    }

    /// Crops out `region`, which must lie wholly inside the image.
    pub fn crop(&self, region: &Rect) -> (result: ColorImage)
        requires
            self.wf(),
            region.width > 0,
            region.height > 0,
            0 <= region.x,
            0 <= region.y,
            region.x + region.width <= self.width,
            region.y + region.height <= self.height,
        ensures
            result.wf(),
            result.width == region.width,
            result.height == region.height,
            forall|x: int, y: int, c: int|
                0 <= x < region.width && 0 <= y < region.height && 0 <= c < 3
                    ==> #[trigger] result.channel(x, y, c) == self.channel(
                    region.x + x,
                    region.y + y,
                    c,
                ),
    {
        let x0: usize = region.x as usize;
        let y0: usize = region.y as usize;
        let w: usize = region.width as usize;
        let h: usize = region.height as usize;
        let mut rows: Vec<Vec<u8>> = Vec::new();
        let mut y: usize = 0;
        while y < h
            invariant
                self.wf(),
                x0 == region.x,
                y0 == region.y,
                w == region.width,
                h == region.height,
                x0 + w <= self.width,
                y0 + h <= self.height,
                y <= h,
                rows@.len() == y,
                forall|yy: int| 0 <= yy < y ==> (#[trigger] rows@[yy])@.len() == 3 * w,
                forall|i: int, yy: int|
                    0 <= i < 3 * w && 0 <= yy < y ==> #[trigger] rows@[yy]@[i] == self.pixels@[y0
                        + yy]@[3 * x0 + i],
            decreases h - y,
        {
            let mut row: Vec<u8> = Vec::new();
            let mut i: usize = 0;
            while i < 3 * w
                invariant
                    self.wf(),
                    x0 + w <= self.width,
                    y0 + h <= self.height,
                    y < h,
                    i <= 3 * w,
                    w == region.width,
                    row@.len() == i,
                    forall|ii: int|
                        0 <= ii < i ==> #[trigger] row@[ii] == self.pixels@[y0 + y]@[3 * x0 + ii],
                decreases 3 * w - i,
            {
                row.push(self.pixels[y0 + y][3 * x0 + i]);
                i = i + 1;
            }
            rows.push(row);
            y = y + 1;
        }
        let result = ColorImage { width: w, height: h, pixels: rows };
        proof {
            assert forall|x: int, yy: int, c: int|
                0 <= x < region.width && 0 <= yy < region.height && 0 <= c < 3
                    implies #[trigger] result.channel(x, yy, c) == self.channel(
                region.x + x,
                region.y + yy,
                c,
            ) by {
                assert(result.pixels@[yy]@[3 * x + c] == self.pixels@[y0 + yy]@[3 * x0 + (3 * x
                    + c)]);
                assert(3 * x0 + (3 * x + c) == 3 * (x0 + x) + c);
            }
        }
        result
    }
}

/// Integer form of the standard luma weighting used for color-to-intensity
/// conversion: `0.299 R + 0.587 G + 0.114 B`, scaled by 1000 and rounded.
pub open spec fn luma(b: u8, g: u8, r: u8) -> int {
    (299 * r + 587 * g + 114 * b + 500) / 1000
}

/// The intensity that color-to-grayscale conversion gives pixel `(x, y)`.
pub open spec fn gray_at(image: ColorImage, x: int, y: int) -> u8 {
    luma(image.channel(x, y, 0), image.channel(x, y, 1), image.channel(x, y, 2)) as u8
}

/// Converts a color image to single-channel intensity with the standard
/// luma weighting. Dimensions are unchanged.
pub fn to_bw_image(image: &ColorImage) -> (result: GrayImage)
    requires
        image.wf(),
    ensures
        result.wf(),
        result.width == image.width,
        result.height == image.height,
        forall|x: int, y: int|
            0 <= x < image.width && 0 <= y < image.height ==> #[trigger] result.pixel(x, y)
                == gray_at(*image, x, y),
{
    let mut rows: Vec<Vec<u8>> = Vec::new();
    let mut y: usize = 0;
    while y < image.height
        invariant
            image.wf(),
            y <= image.height,
            rows@.len() == y,
            forall|yy: int| 0 <= yy < y ==> (#[trigger] rows@[yy])@.len() == image.width,
            forall|xx: int, yy: int|
                0 <= xx < image.width && 0 <= yy < y ==> #[trigger] rows@[yy]@[xx] == gray_at(
                    *image,
                    xx,
                    yy,
                ),
        decreases image.height - y,
    {
        let mut row: Vec<u8> = Vec::new();
        let mut x: usize = 0;
        while x < image.width
            invariant
                image.wf(),
                y < image.height,
                x <= image.width,
                row@.len() == x,
                forall|xx: int| 0 <= xx < x ==> #[trigger] row@[xx] == gray_at(*image, xx, y as int),
            decreases image.width - x,
        {
            let b = self_channel(image, x, y, 0);
            let g = self_channel(image, x, y, 1);
            let r = self_channel(image, x, y, 2);
            let v: u32 = (299 * (r as u32) + 587 * (g as u32) + 114 * (b as u32) + 500) / 1000;
            row.push(v as u8);
            x = x + 1;
        }
        rows.push(row);
        y = y + 1;
    }
    GrayImage { width: image.width, height: image.height, pixels: rows }
}

/// Reads one channel of one pixel of a color image.
fn self_channel(image: &ColorImage, x: usize, y: usize, c: usize) -> (result: u8)
    requires
        image.wf(),
        x < image.width,
        y < image.height,
        c < 3,
    ensures
        result == image.channel(x as int, y as int, c as int),
{
    image.pixels[y][3 * x + c]
}

} // verus!
