//! Region Validator: clamps detector-proposed rectangles to frame bounds and
//! rejects candidates whose shape is implausible for a face.

use vstd::prelude::*;

verus! {

/// Smallest width and height, in pixels, that a candidate face region may
/// have and still count as a reliable detection.
pub const MIN_FACE_SIZE: i32 = 40;

/// An axis-aligned rectangle in frame coordinates, origin top-left.
/// Produced by the external detector; it has no identity beyond its
/// coordinates and may lie partly or wholly outside the frame.
#[derive(Clone, Copy, PartialEq, Eq, Structural, Debug)]
pub struct Rect {
    pub x: i32,
    pub y: i32,
    pub width: i32,
    pub height: i32,
}

/// Width and height of a frame, in pixels.
#[derive(Clone, Copy, PartialEq, Eq, Structural, Debug)]
pub struct FrameSize {
    pub width: i32,
    pub height: i32,
}

impl FrameSize {
    /// A frame has at least one pixel in each direction.
    pub open spec fn wf(self) -> bool {
        self.width >= 1 && self.height >= 1
    }
}

/// `v` forced into the closed interval `[lo, hi]`.
pub open spec fn clamp_int(v: int, lo: int, hi: int) -> int {
    if v < lo {
        lo
    } else if v > hi {
        hi
    } else {
        v
    }
}

/// The clamping step of validation: a degenerate rectangle (non-positive
/// width or height) is rejected outright; otherwise the origin is forced
/// into the frame and the extent shortened so the rectangle never leaves it.
pub open spec fn spec_clamp_rect(rect: Rect, bounds: FrameSize) -> Option<Rect> {
    if rect.width <= 0 || rect.height <= 0 {
        None
    } else {
        let x = clamp_int(rect.x as int, 0, bounds.width - 1);
        let y = clamp_int(rect.y as int, 0, bounds.height - 1);
        let w = if rect.width <= bounds.width - x {
            rect.width as int
        } else {
            bounds.width - x
        };
        let h = if rect.height <= bounds.height - y {
            rect.height as int
        } else {
            bounds.height - y
        };
        if w <= 0 || h <= 0 {
            None
        } else {
            Some(
                Rect {
                    x: x as i32,
                    y: y as i32,
                    width: w as i32,
                    height: h as i32,
                },
            )
        }
    }
}

/// The shape filter of validation: the region is at least `MIN_FACE_SIZE`
/// on each side and its width/height ratio lies inside the closed band
/// [2/3, 3/2], which excludes implausibly elongated detections.
pub open spec fn spec_is_valid_face(rect: Rect) -> bool {
    &&& rect.width >= MIN_FACE_SIZE
    &&& rect.height >= MIN_FACE_SIZE
    &&& 3 * rect.width >= 2 * rect.height
    &&& 2 * rect.width <= 3 * rect.height
}

/// Full validation: clamp to the frame, then keep only plausible shapes.
pub open spec fn spec_validate(rect: Rect, bounds: FrameSize) -> Option<Rect> {
    match spec_clamp_rect(rect, bounds) {
        None => None,
        Some(c) => if spec_is_valid_face(c) {
            Some(c)
        } else {
            None
        },
    }
}

/// Clamps a candidate rectangle into the frame, rejecting degenerate ones.
/// Whatever comes back is wholly inside `[0, width) x [0, height)`.
pub fn clamp_rect(rect: Rect, bounds: FrameSize) -> (result: Option<Rect>)
    requires
        bounds.wf(),
    ensures
        result == spec_clamp_rect(rect, bounds),
        rect.width <= 0 || rect.height <= 0 ==> result is None,
        result matches Some(c) ==> {
            &&& c.width > 0
            &&& c.height > 0
            &&& 0 <= c.x
            &&& 0 <= c.y
            &&& c.x + c.width <= bounds.width
            &&& c.y + c.height <= bounds.height
        },
{
    if rect.width <= 0 || rect.height <= 0 {
        return None;
    }
    let x: i32 = if rect.x < 0 {
        0
    } else if rect.x > bounds.width - 1 {
        bounds.width - 1
    } else {
        rect.x
    };
    let y: i32 = if rect.y < 0 {
        0
    } else if rect.y > bounds.height - 1 {
        bounds.height - 1
    } else {
        rect.y
    };
    let width: i32 = if rect.width <= bounds.width - x {
        rect.width
    } else {
        bounds.width - x
    };
    let height: i32 = if rect.height <= bounds.height - y {
        rect.height
    } else {
        bounds.height - y
    };
    if width <= 0 || height <= 0 {
        None
    } else {
        Some(Rect { x, y, width, height })
    }
}

/// Accepts a region only if it is large enough on both sides and its
/// width/height aspect ratio lies between 2/3 and 3/2, both included.
pub fn is_valid_face(rect: &Rect) -> (result: bool)
    ensures
        result == spec_is_valid_face(*rect),
{
    if rect.width < MIN_FACE_SIZE || rect.height < MIN_FACE_SIZE {
        return false;
    }
    let w: i64 = rect.width as i64;
    let h: i64 = rect.height as i64;
    3 * w >= 2 * h && 2 * w <= 3 * h
}

/// The Region Validator: clamps `rect` to the frame and rejects it if
/// degenerate or outside plausible face-shape bounds. Failing either filter
/// is not an error, just an exclusion of this candidate.
pub fn validate(rect: Rect, bounds: FrameSize) -> (result: Option<Rect>)
    requires
        bounds.wf(),
    ensures
        result == spec_validate(rect, bounds),
        rect.width <= 0 || rect.height <= 0 ==> result is None,
        result matches Some(c) ==> {
            &&& spec_is_valid_face(c)
            &&& 0 <= c.x
            &&& 0 <= c.y
            &&& c.x + c.width <= bounds.width
            &&& c.y + c.height <= bounds.height
        },
{
    match clamp_rect(rect, bounds) {
        None => None,
        Some(c) => if is_valid_face(&c) {
            Some(c)
        } else {
            None
        },
    }
}

/// A candidate that already lies wholly inside the frame and passes the
/// size and aspect filters comes back from validation unchanged.
pub proof fn lemma_validate_accepts_inside(rect: Rect, bounds: FrameSize)
    requires
        bounds.wf(),
        rect.width > 0,
        rect.height > 0,
        0 <= rect.x,
        0 <= rect.y,
        rect.x + rect.width <= bounds.width,
        rect.y + rect.height <= bounds.height,
        spec_is_valid_face(rect),
    ensures
        spec_validate(rect, bounds) == Some(rect),
{
}

} // verus!
