use face_verify::geometry::Rect;
use face_verify::image::ColorImage;
use face_verify::image::GrayImage;
use face_verify::pipeline::MATCH_THRESHOLD_SQ;
use face_verify::pipeline::StartupError;
use face_verify::pipeline::face_label;
use face_verify::pipeline::is_match;
use face_verify::pipeline::normalize_region;
use face_verify::pipeline::prepare_reference;
use face_verify::pipeline::process_frame;
use face_verify::pipeline::should_quit;
use face_verify::pipeline::should_skip_frame;

fn gray_gradient(width: usize, height: usize) -> GrayImage {
    let mut pixels: Vec<Vec<u8>> = Vec::new();
    for y in 0..height {
        let mut row: Vec<u8> = Vec::new();
        for x in 0..width {
            row.push(((x * 7 + y * 3) % 256) as u8);
        }
        pixels.push(row);
    }
    GrayImage { width, height, pixels }
}

fn color_frame(width: usize, height: usize, b: u8, g: u8, r: u8) -> ColorImage {
    let mut row: Vec<u8> = Vec::new();
    for _ in 0..width {
        row.push(b);
        row.push(g);
        row.push(r);
    }
    ColorImage { width, height, pixels: vec![row; height] }
}

#[test]
fn startup_with_one_face_yields_reference_face() {
    let image = gray_gradient(320, 240);
    let faces = vec![Rect { x: 40, y: 30, width: 100, height: 110 }];
    let reference = prepare_reference(&image, &faces).unwrap();
    assert_eq!(reference.width, 128);
    assert_eq!(reference.height, 128);
    assert_eq!(reference.pixels.len(), 128);
    for row in &reference.pixels {
        assert_eq!(row.len(), 128);
    }
}

#[test]
fn startup_without_faces_is_fatal() {
    let image = gray_gradient(320, 240);
    let faces: Vec<Rect> = Vec::new();
    assert_eq!(prepare_reference(&image, &faces), Err(StartupError::NoFaceDetected));
}

#[test]
fn startup_with_degenerate_face_is_fatal() {
    let image = gray_gradient(320, 240);
    let faces = vec![Rect { x: 40, y: 30, width: 0, height: 110 }];
    assert_eq!(prepare_reference(&image, &faces), Err(StartupError::InvalidReferenceRegion));
}

#[test]
fn frame_without_candidates_stays_unannotated() {
    let frame = color_frame(320, 240, 50, 60, 70);
    let reference = GrayImage { width: 128, height: 128, pixels: vec![vec![9; 128]; 128] };
    let annotations = process_frame(&frame, &Vec::new(), &reference);
    assert!(annotations.is_empty());
}

#[test]
fn matching_region_is_labeled_with_reference_name() {
    let frame = color_frame(300, 300, 10, 200, 30);
    let region = Rect { x: 20, y: 20, width: 100, height: 100 };
    // the reference face is the normalization of this very region
    let reference = normalize_region(&frame, &region);
    let annotations = process_frame(&frame, &vec![region], &reference);
    assert_eq!(annotations.len(), 1);
    assert_eq!(annotations[0].region, region);
    assert_eq!(annotations[0].score_sq, 0);
    assert!(annotations[0].matched);
    assert!(annotations[0].score_sq < MATCH_THRESHOLD_SQ);
    let label = face_label("alice.png", annotations[0].score_sq);
    assert_eq!(label, "alice.png");
}

#[test]
fn non_matching_region_is_labeled_unknown() {
    // dark frame against an all-bright reference face
    let frame = color_frame(300, 300, 0, 0, 0);
    let region = Rect { x: 20, y: 20, width: 100, height: 100 };
    let reference = GrayImage { width: 128, height: 128, pixels: vec![vec![255; 128]; 128] };
    let annotations = process_frame(&frame, &vec![region], &reference);
    assert_eq!(annotations.len(), 1);
    assert!(annotations[0].score_sq >= MATCH_THRESHOLD_SQ);
    assert!(!annotations[0].matched);
    let label = face_label("alice.png", annotations[0].score_sq);
    assert_eq!(label, "Unknown");
}

#[test]
fn rejected_candidates_are_excluded_not_errors() {
    let frame = color_frame(300, 300, 10, 200, 30);
    let reference = GrayImage { width: 128, height: 128, pixels: vec![vec![0; 128]; 128] };
    let candidates = vec![
        Rect { x: 20, y: 20, width: 0, height: 50 },    // degenerate
        Rect { x: 20, y: 20, width: 40, height: 100 },  // bad aspect ratio
        Rect { x: 20, y: 20, width: 100, height: 100 }, // accepted
    ];
    let annotations = process_frame(&frame, &candidates, &reference);
    assert_eq!(annotations.len(), 1);
    assert_eq!(annotations[0].region, candidates[2]);
}

#[test]
fn decision_threshold_is_strict() {
    assert!(is_match(MATCH_THRESHOLD_SQ - 1));
    assert!(!is_match(MATCH_THRESHOLD_SQ));
    assert!(!is_match(MATCH_THRESHOLD_SQ + 1));
    assert!(is_match(0));
}

#[test]
fn quit_and_skip_decisions() {
    assert!(should_quit(113)); // 'q'
    assert!(!should_quit(27));
    assert!(!should_quit(-1));
    assert!(should_skip_frame(0));
    assert!(!should_skip_frame(640));
}
