//! Identity Decision Policy and Frame Pipeline Orchestrator: normalizes a
//! validated region of a frame to the canonical 128x128 face, scores it
//! against the reference face, thresholds the score into an identity label,
//! and runs every detector candidate of one frame through that chain.
//!
//! Frame acquisition, the external face detector and on-screen rendering
//! live outside this crate; they hand candidate rectangles and pixel
//! buffers in and take annotations back.

use vstd::prelude::*;
use crate::geometry::FrameSize;
use crate::geometry::Rect;
use crate::geometry::clamp_rect;
use crate::geometry::spec_clamp_rect;
use crate::geometry::spec_validate;
use crate::geometry::validate;
use crate::image::ColorImage;
use crate::image::GrayImage;
use crate::image::gray_at;
use crate::image::to_bw_image;
use crate::resize::NORMALIZED_SIZE;
use crate::resize::blend;
use crate::resize::lemma_src_coord_bounds;
use crate::resize::resize_image;
use crate::resize::src_frac;
use crate::resize::src_hi;
use crate::resize::src_lo;
use crate::score::compare_faces;
use crate::score::energy_rows;
use crate::score::spec_energy;

verus! {

/// Squared form of the empirical decision boundary of the pixel-difference
/// energy metric at 128x128 single-channel resolution: a match is an L2
/// norm below 20000.0, i.e. a squared energy below 20000 * 20000. The
/// constant is tied to this resolution and metric and must be re-derived
/// if either changes.
pub const MATCH_THRESHOLD_SQ: u64 = 400000000;

/// Key code of the letter 'q', the quit signal of the frame loop.
pub const QUIT_KEY: i32 = 113;

/// A squared energy score below the threshold counts as the reference
/// identity.
pub open spec fn spec_is_match(score_sq: int) -> bool {
    score_sq < MATCH_THRESHOLD_SQ
}

/// The Identity Decision Policy: thresholds a squared pixel-difference
/// energy score. Lower scores mean more similar faces.
pub fn is_match(score_sq: u64) -> (result: bool)
    ensures
        result == spec_is_match(score_sq as int),
{
    score_sq < MATCH_THRESHOLD_SQ
}

/// The display label of a scored face: the reference identity's name when
/// the score is within the threshold, "Unknown" otherwise.
pub fn face_label(name: &str, score_sq: u64) -> (result: String)
    ensures
        spec_is_match(score_sq as int) ==> result@ == name@,
        !spec_is_match(score_sq as int) ==> result@ == "Unknown"@,
{
    if score_sq < MATCH_THRESHOLD_SQ {
        name.to_owned()
    } else {
        "Unknown".to_owned()
    }
}

/// The quit decision of the frame loop: the loop ends exactly on the quit
/// key.
pub fn should_quit(key: i32) -> (result: bool)
    ensures
        result == (key == QUIT_KEY),
{
    key == QUIT_KEY
}

/// A captured frame of zero width is a transient glitch and is skipped,
/// not treated as an error.
pub fn should_skip_frame(width: i32) -> (result: bool)
    ensures
        result == (width == 0),
{
    width == 0
}

/// The frame bounds that candidate rectangles are validated against.
pub open spec fn spec_frame_size(frame: ColorImage) -> FrameSize {
    FrameSize { width: frame.width as i32, height: frame.height as i32 }
}

/// Intensity of pixel `(x, y)` of the grayscale conversion of the part of
/// `frame` covered by `region`.
pub open spec fn region_gray_pixel(frame: ColorImage, region: Rect, x: int, y: int) -> u8 {
    gray_at(frame, region.x + x, region.y + y)
}

/// The intensity that normalization of `region` of a color `frame` gives
/// output pixel `(x, y)`: bilinear resampling of the grayscale conversion
/// of the cropped region.
pub open spec fn normalized_pixel(frame: ColorImage, region: Rect, x: int, y: int) -> int {
    let w = region.width as int;
    let h = region.height as int;
    blend(
        region_gray_pixel(frame, region, src_lo(x, w), src_lo(y, h)),
        region_gray_pixel(frame, region, src_hi(x, w), src_lo(y, h)),
        region_gray_pixel(frame, region, src_lo(x, w), src_hi(y, h)),
        region_gray_pixel(frame, region, src_hi(x, w), src_hi(y, h)),
        src_frac(x, w),
        src_frac(y, h),
    )
}

/// The whole Normalized Face of `region` of `frame`, as a 128x128 grid.
pub open spec fn normalized_face_rows(frame: ColorImage, region: Rect) -> Seq<Seq<u8>> {
    Seq::new(
        NORMALIZED_SIZE as nat,
        |y: int| Seq::new(NORMALIZED_SIZE as nat, |x: int| normalized_pixel(frame, region, x, y) as u8),
    )
}

/// The Region Normalizer: crops `frame` to the validated `region`,
/// converts to single-channel intensity and resamples to exactly 128x128
/// with bilinear interpolation. A crop rectangle outside the frame is an
/// upstream invariant violation and is excluded by the precondition.
pub fn normalize_region(frame: &ColorImage, region: &Rect) -> (result: GrayImage)
    requires
        frame.wf(),
        region.width > 0,
        region.height > 0,
        0 <= region.x,
        0 <= region.y,
        region.x + region.width <= frame.width,
        region.y + region.height <= frame.height,
    ensures
        result.wf(),
        result.width == NORMALIZED_SIZE,
        result.height == NORMALIZED_SIZE,
        forall|x: int, y: int|
            0 <= x < NORMALIZED_SIZE && 0 <= y < NORMALIZED_SIZE ==> #[trigger] result.pixel(x, y)
                == normalized_pixel(*frame, *region, x, y),
        result.rows() =~~= normalized_face_rows(*frame, *region),
{
    let cropped = frame.crop(region);
    let gray = to_bw_image(&cropped);
    let result = resize_image(&gray);
    proof {
        assert forall|x: int, y: int|
            0 <= x < NORMALIZED_SIZE && 0 <= y < NORMALIZED_SIZE implies #[trigger] result.pixel(
            x,
            y,
        ) == normalized_pixel(*frame, *region, x, y) by {
            let w = region.width as int;
            let h = region.height as int;
            lemma_src_coord_bounds(x, w);
            lemma_src_coord_bounds(y, h);
            let x0 = src_lo(x, w);
            let x1 = src_hi(x, w);
            let y0 = src_lo(y, h);
            let y1 = src_hi(y, h);
            assert(gray.pixel(x0, y0) == region_gray_pixel(*frame, *region, x0, y0));
            assert(gray.pixel(x1, y0) == region_gray_pixel(*frame, *region, x1, y0));
            assert(gray.pixel(x0, y1) == region_gray_pixel(*frame, *region, x0, y1));
            assert(gray.pixel(x1, y1) == region_gray_pixel(*frame, *region, x1, y1));
        }
        assert forall|y: int| 0 <= y < NORMALIZED_SIZE implies result.rows()[y] =~=
            normalized_face_rows(*frame, *region)[y] by {
            assert forall|x: int| 0 <= x < NORMALIZED_SIZE implies result.rows()[y][x]
                == normalized_face_rows(*frame, *region)[y][x] by {
                assert(result.pixel(x, y) == normalized_pixel(*frame, *region, x, y));
            }
        }
    }
    result
}

/// Why startup could not produce a Reference Face. Either condition is
/// fatal for the whole run.
#[derive(Clone, Copy, PartialEq, Eq, Structural, Debug)]
pub enum StartupError {
    /// The reference image contained no detected face at all.
    NoFaceDetected,
    /// The first detected region was degenerate after clamping to the
    /// image.
    InvalidReferenceRegion,
}

/// Intensity of pixel `(x, y)` of the part of a single-channel `image`
/// covered by `region`.
pub open spec fn region_pixel(image: GrayImage, region: Rect, x: int, y: int) -> u8 {
    image.pixel(region.x + x, region.y + y)
}

/// The intensity that normalization of `region` of a single-channel
/// `image` gives output pixel `(x, y)`.
pub open spec fn normalized_gray_pixel(image: GrayImage, region: Rect, x: int, y: int) -> int {
    let w = region.width as int;
    let h = region.height as int;
    blend(
        region_pixel(image, region, src_lo(x, w), src_lo(y, h)),
        region_pixel(image, region, src_hi(x, w), src_lo(y, h)),
        region_pixel(image, region, src_lo(x, w), src_hi(y, h)),
        region_pixel(image, region, src_hi(x, w), src_hi(y, h)),
        src_frac(x, w),
        src_frac(y, h),
    )
}

/// Startup: builds the Reference Face from the reference image (already
/// single-channel) and the face regions the external detector found in
/// it. Zero detected faces is a fatal condition; otherwise the first
/// region is clamped to the image and normalized.
pub fn prepare_reference(image: &GrayImage, faces: &Vec<Rect>) -> (result: Result<
    GrayImage,
    StartupError,
>)
    requires
        image.wf(),
        image.nonempty(),
    ensures
        faces@.len() == 0 <==> result == Err::<GrayImage, StartupError>(
            StartupError::NoFaceDetected,
        ),
        faces@.len() > 0 && spec_clamp_rect(
            faces@[0],
            FrameSize { width: image.width as i32, height: image.height as i32 },
        ) is None ==> result == Err::<GrayImage, StartupError>(StartupError::InvalidReferenceRegion),
        faces@.len() > 0 ==> (spec_clamp_rect(
            faces@[0],
            FrameSize { width: image.width as i32, height: image.height as i32 },
        ) matches Some(c) ==> result matches Ok(f) && f.wf() && f.width == NORMALIZED_SIZE
            && f.height == NORMALIZED_SIZE && (forall|x: int, y: int|
            0 <= x < NORMALIZED_SIZE && 0 <= y < NORMALIZED_SIZE ==> #[trigger] f.pixel(x, y)
                == normalized_gray_pixel(*image, c, x, y))),
{
    if faces.len() == 0 {
        return Err(StartupError::NoFaceDetected);
    }
    let bounds = FrameSize { width: image.width as i32, height: image.height as i32 };
    let first: Rect = faces[0];
    match clamp_rect(first, bounds) {
        None => Err(StartupError::InvalidReferenceRegion),
        Some(region) => {
            let cropped = image.crop(&region);
            let face = resize_image(&cropped);
            proof {
                assert forall|x: int, y: int|
                    0 <= x < NORMALIZED_SIZE && 0 <= y < NORMALIZED_SIZE implies #[trigger] face
                    .pixel(x, y) == normalized_gray_pixel(*image, region, x, y) by {
                    let w = region.width as int;
                    let h = region.height as int;
                    lemma_src_coord_bounds(x, w);
                    lemma_src_coord_bounds(y, h);
                    let x0 = src_lo(x, w);
                    let x1 = src_hi(x, w);
                    let y0 = src_lo(y, h);
                    let y1 = src_hi(y, h);
                    assert(cropped.pixel(x0, y0) == region_pixel(*image, region, x0, y0));
                    assert(cropped.pixel(x1, y0) == region_pixel(*image, region, x1, y0));
                    assert(cropped.pixel(x0, y1) == region_pixel(*image, region, x0, y1));
                    assert(cropped.pixel(x1, y1) == region_pixel(*image, region, x1, y1));
                }
            }
            Ok(face)
        },
    }
}

/// One scored candidate of a frame: the validated region, its squared
/// energy score against the reference face, and the identity decision.
#[derive(Clone, Copy, PartialEq, Eq, Structural, Debug)]
pub struct Annotation {
    /// The candidate rectangle after clamping, wholly inside the frame.
    pub region: Rect,
    /// Squared pixel-difference energy against the Reference Face.
    pub score_sq: u64,
    /// Whether the score is within the match threshold.
    pub matched: bool,
}

/// Squared energy of the Normalized Face of `region` of `frame` against
/// the reference face.
pub open spec fn spec_region_score(frame: ColorImage, region: Rect, reference: GrayImage) -> int {
    energy_rows(
        normalized_face_rows(frame, region),
        reference.rows(),
        NORMALIZED_SIZE as int,
        NORMALIZED_SIZE as int,
    )
}

/// The annotations that one frame's candidate list produces: candidates
/// rejected by the Region Validator are excluded; each surviving region is
/// normalized, scored against the reference and thresholded, in candidate
/// order.
pub open spec fn spec_annotations(
    frame: ColorImage,
    candidates: Seq<Rect>,
    reference: GrayImage,
) -> Seq<Annotation>
    decreases candidates.len(),
{
    if candidates.len() == 0 {
        Seq::empty()
    } else {
        let rest = spec_annotations(frame, candidates.drop_last(), reference);
        match spec_validate(candidates.last(), spec_frame_size(frame)) {
            None => rest,
            Some(c) => rest.push(
                Annotation {
                    region: c,
                    score_sq: spec_region_score(frame, c, reference) as u64,
                    matched: spec_is_match(spec_region_score(frame, c, reference)),
                },
            ),
        }
    }
}

/// The per-frame step of the Frame Pipeline Orchestrator: runs every
/// detector candidate through validation, normalization, scoring and the
/// identity decision, against the one Reference Face. A frame with no
/// candidates produces no annotations, so its annotated output equals the
/// input.
pub fn process_frame(frame: &ColorImage, candidates: &Vec<Rect>, reference: &GrayImage) -> (result:
    Vec<Annotation>)
    requires
        frame.wf(),
        frame.width >= 1,
        frame.height >= 1,
        reference.wf(),
        reference.width == NORMALIZED_SIZE,
        reference.height == NORMALIZED_SIZE,
    ensures
        result@ == spec_annotations(*frame, candidates@, *reference),
        candidates@.len() == 0 ==> result@.len() == 0,
{
    let bounds = FrameSize { width: frame.width as i32, height: frame.height as i32 };
    let mut result: Vec<Annotation> = Vec::new();
    let mut i: usize = 0;
    while i < candidates.len()
        invariant
            frame.wf(),
            frame.width >= 1,
            frame.height >= 1,
            reference.wf(),
            reference.width == NORMALIZED_SIZE,
            reference.height == NORMALIZED_SIZE,
            bounds == spec_frame_size(*frame),
            i <= candidates@.len(),
            result@ == spec_annotations(*frame, candidates@.take(i as int), *reference),
        decreases candidates@.len() - i,
    {
        let candidate: Rect = candidates[i];
        proof {
            assert(candidates@.take(i + 1).drop_last() =~= candidates@.take(i as int));
            assert(candidates@.take(i + 1).last() == candidates@[i as int]);
        }
        match validate(candidate, bounds) {
            None => {},
            Some(region) => {
                let face = normalize_region(frame, &region);
                let score_sq = compare_faces(&face, reference);
                let matched = is_match(score_sq);
                proof {
                    assert(spec_energy(face, *reference) == spec_region_score(
                        *frame,
                        region,
                        *reference,
                    ));
                }
                result.push(Annotation { region, score_sq, matched });
            },
        }
        i = i + 1;
    }
    proof {
        assert(candidates@.take(candidates@.len() as int) =~= candidates@);
    }
    result
}

/// In every annotation a frame produces, the match flag is exactly the
/// thresholding of the recorded score.
pub proof fn lemma_annotations_matched(
    frame: ColorImage,
    candidates: Seq<Rect>,
    reference: GrayImage,
)
    ensures
        forall|i: int|
            0 <= i < spec_annotations(frame, candidates, reference).len()
                ==> (#[trigger] spec_annotations(frame, candidates, reference)[i]).matched
                == spec_is_match(spec_annotations(frame, candidates, reference)[i].score_sq as int),
    decreases candidates.len(),
{
    if candidates.len() > 0 {
        lemma_annotations_matched(frame, candidates.drop_last(), reference);
        lemma_region_score_bounds(frame, candidates, reference);
        let rest = spec_annotations(frame, candidates.drop_last(), reference);
        let s = spec_annotations(frame, candidates, reference);
        if spec_validate(candidates.last(), spec_frame_size(frame)) is Some {
            let c = spec_validate(candidates.last(), spec_frame_size(frame))->Some_0;
            let score = spec_region_score(frame, c, reference);
            assert(0 <= score <= 65025 * 128 * 128);
            assert((score as u64) as int == score);
            assert(s == rest.push(
                Annotation { region: c, score_sq: score as u64, matched: spec_is_match(score) },
            ));
            assert forall|i: int| 0 <= i < s.len() implies (#[trigger] s[i]).matched
                == spec_is_match(s[i].score_sq as int) by {
                if i < rest.len() {
                    assert(s[i] == rest[i]);
                } else {
                    assert(s[i].score_sq == score as u64);
                }
            }
        } else {
            assert(s == rest);
        }
    }
}

/// The squared energy of any 128x128 face pair fits comfortably in the
/// score field: at most 128 * 128 * 255 * 255.
proof fn lemma_region_score_bounds(frame: ColorImage, candidates: Seq<Rect>, reference: GrayImage)
    requires
        candidates.len() > 0,
    ensures
        spec_validate(candidates.last(), spec_frame_size(frame)) matches Some(c) ==> 0
            <= spec_region_score(frame, c, reference) <= 65025 * 128 * 128,
{
    if spec_validate(candidates.last(), spec_frame_size(frame)) is Some {
        let c = spec_validate(candidates.last(), spec_frame_size(frame))->Some_0;
        crate::score::lemma_energy_rows_bound(
            normalized_face_rows(frame, c),
            reference.rows(),
            NORMALIZED_SIZE as int,
            NORMALIZED_SIZE as int,
        );
    }
}

} // verus!
