use face_verify::geometry::Rect;
use face_verify::image::ColorImage;
use face_verify::image::GrayImage;
use face_verify::image::to_bw_image;
use face_verify::pipeline::normalize_region;
use face_verify::resize::resize_image;

fn gray_of(width: usize, height: usize, value: u8) -> GrayImage {
    GrayImage { width, height, pixels: vec![vec![value; width]; height] }
}

fn color_of(width: usize, height: usize, b: u8, g: u8, r: u8) -> ColorImage {
    let mut row: Vec<u8> = Vec::new();
    for _ in 0..width {
        row.push(b);
        row.push(g);
        row.push(r);
    }
    ColorImage { width, height, pixels: vec![row; height] }
}

#[test]
fn luma_weighting_is_exact() {
    // pure blue: (114 * 255 + 500) / 1000 = 29
    let bw = to_bw_image(&color_of(2, 2, 255, 0, 0));
    assert_eq!(bw.pixels[0][0], 29);
    // pure green: (587 * 255 + 500) / 1000 = 150
    let bw = to_bw_image(&color_of(1, 1, 0, 255, 0));
    assert_eq!(bw.pixels[0][0], 150);
    // pure red: (299 * 255 + 500) / 1000 = 76
    let bw = to_bw_image(&color_of(1, 1, 0, 0, 255));
    assert_eq!(bw.pixels[0][0], 76);
    // white stays white, black stays black
    assert_eq!(to_bw_image(&color_of(1, 1, 255, 255, 255)).pixels[0][0], 255);
    assert_eq!(to_bw_image(&color_of(1, 1, 0, 0, 0)).pixels[0][0], 0);
}

#[test]
fn resize_always_yields_128_by_128() {
    for (w, h) in [(1, 1), (2, 3), (40, 60), (128, 128), (500, 200)] {
        let out = resize_image(&gray_of(w, h, 10));
        assert_eq!(out.width, 128);
        assert_eq!(out.height, 128);
        assert_eq!(out.pixels.len(), 128);
        for row in &out.pixels {
            assert_eq!(row.len(), 128);
        }
    }
}

#[test]
fn resize_preserves_constant_images() {
    let out = resize_image(&gray_of(37, 91, 77));
    for row in &out.pixels {
        for &p in row {
            assert_eq!(p, 77);
        }
    }
}

#[test]
fn resize_interpolates_between_samples() {
    // A 2x1 source [0, 255]: the output runs from 0 at the left edge to
    // 255 at the right edge, with the exact bilinear value in between.
    let src = GrayImage { width: 2, height: 1, pixels: vec![vec![0, 255]] };
    let out = resize_image(&src);
    assert_eq!(out.pixels[0][0], 0);
    assert_eq!(out.pixels[0][127], 255);
    // At x = 64 the mapped position is (129 * 2 - 128)/256 = 0 + 130/256,
    // so the value is (130 * 255 * 256 + 32768) / 65536 = 129.
    assert_eq!(out.pixels[0][64], 129);
    assert_eq!(out.pixels[64][64], 129);
}

#[test]
fn normalize_region_yields_128_by_128_single_channel() {
    let frame = color_of(200, 150, 10, 200, 30);
    let region = Rect { x: 10, y: 5, width: 60, height: 50 };
    let face = normalize_region(&frame, &region);
    assert_eq!(face.width, 128);
    assert_eq!(face.height, 128);
    assert_eq!(face.pixels.len(), 128);
    for row in &face.pixels {
        assert_eq!(row.len(), 128);
    }
    // constant color region: every normalized pixel is its luma,
    // (299 * 30 + 587 * 200 + 114 * 10 + 500) / 1000 = 128
    for row in &face.pixels {
        for &p in row {
            assert_eq!(p, 128);
        }
    }
}

#[test]
fn crop_reads_the_right_pixels() {
    let mut img = gray_of(8, 8, 0);
    for y in 0..8 {
        for x in 0..8 {
            img.pixels[y][x] = (y * 8 + x) as u8;
        }
    }
    let region = Rect { x: 2, y: 3, width: 4, height: 2 };
    let c = img.crop(&region);
    assert_eq!(c.width, 4);
    assert_eq!(c.height, 2);
    assert_eq!(c.pixels, vec![vec![26, 27, 28, 29], vec![34, 35, 36, 37]]);
}
