use face_verify::geometry::FrameSize;
use face_verify::geometry::Rect;
use face_verify::geometry::clamp_rect;
use face_verify::geometry::is_valid_face;
use face_verify::geometry::validate;

fn rect(x: i32, y: i32, width: i32, height: i32) -> Rect {
    Rect { x, y, width, height }
}

fn vga() -> FrameSize {
    FrameSize { width: 640, height: 480 }
}

#[test]
fn rejects_zero_width() {
    assert_eq!(validate(rect(10, 10, 0, 50), vga()), None);
    assert_eq!(clamp_rect(rect(10, 10, 0, 50), vga()), None);
}

#[test]
fn rejects_zero_height() {
    assert_eq!(validate(rect(10, 10, 50, 0), vga()), None);
    assert_eq!(clamp_rect(rect(10, 10, 50, 0), vga()), None);
}

#[test]
fn rejects_negative_dimensions() {
    assert_eq!(validate(rect(10, 10, -5, 50), vga()), None);
    assert_eq!(validate(rect(10, 10, 50, -1), vga()), None);
    assert_eq!(clamp_rect(rect(0, 0, -100, -100), vga()), None);
}

#[test]
fn keeps_inside_rect_unchanged() {
    let r = rect(10, 10, 50, 60);
    assert_eq!(validate(r, vga()), Some(r));
    assert_eq!(clamp_rect(r, vga()), Some(r));
}

#[test]
fn clamps_rect_crossing_origin() {
    let r = rect(-10, -20, 100, 100);
    let c = clamp_rect(r, vga()).unwrap();
    assert_eq!(c, rect(0, 0, 100, 100));
    assert!(c.x >= 0 && c.y >= 0);
    assert!(c.x + c.width <= 640 && c.y + c.height <= 480);
}

#[test]
fn clamps_rect_crossing_far_edges() {
    let r = rect(600, 400, 100, 100);
    let c = clamp_rect(r, vga()).unwrap();
    assert_eq!(c, rect(600, 400, 40, 80));
    assert!(c.x + c.width <= 640 && c.y + c.height <= 480);
}

#[test]
fn clamped_result_always_inside_bounds() {
    let candidates = [
        rect(-50, -50, 60, 60),
        rect(630, 470, 300, 300),
        rect(-1000, 200, 5000, 50),
        rect(200, -1000, 50, 5000),
        rect(639, 479, 1, 1),
    ];
    for r in candidates {
        if let Some(c) = clamp_rect(r, vga()) {
            assert!(c.width > 0 && c.height > 0);
            assert!(c.x >= 0 && c.y >= 0);
            assert!(c.x + c.width <= 640);
            assert!(c.y + c.height <= 480);
        }
    }
}

#[test]
fn aspect_ratio_filter() {
    // ratio 0.4: implausibly tall, rejected
    assert!(!is_valid_face(&rect(0, 0, 40, 100)));
    assert_eq!(validate(rect(0, 0, 40, 100), vga()), None);
    // ratio about 0.83: accepted
    assert!(is_valid_face(&rect(0, 0, 50, 60)));
    assert_eq!(validate(rect(0, 0, 50, 60), vga()), Some(rect(0, 0, 50, 60)));
    // ratios of exactly 3/2 and 2/3: inside the closed band, accepted
    assert!(is_valid_face(&rect(0, 0, 60, 40)));
    assert!(is_valid_face(&rect(0, 0, 40, 60)));
    // just beyond the band on either side: rejected
    assert!(!is_valid_face(&rect(0, 0, 61, 40)));
    assert!(!is_valid_face(&rect(0, 0, 40, 61)));
}

#[test]
fn minimum_size_filter() {
    assert!(!is_valid_face(&rect(0, 0, 39, 50)));
    assert!(!is_valid_face(&rect(0, 0, 50, 39)));
    assert!(is_valid_face(&rect(0, 0, 40, 40)));
    assert_eq!(validate(rect(5, 5, 39, 39), vga()), None);
}
