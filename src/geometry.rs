use vstd::prelude::*;
use crate::errors::ValidationError;

verus! {

/// Quarter turn applied to a scan before it is split.
#[derive(Clone, Copy, Debug, PartialEq, Eq, Structural)]
pub enum Rotation {
    /// 90 degrees clockwise.
    Clockwise,
    /// 90 degrees counter-clockwise (270 degrees clockwise).
    CounterClockwise,
}

/// Sheets alternate orientation in the scanner: even positions turn
/// clockwise, odd positions counter-clockwise.
pub open spec fn rotation_spec(idx: int) -> Rotation {
    if idx % 2 == 0 {
        Rotation::Clockwise
    } else {
        Rotation::CounterClockwise
    }
}

/// Rotation that puts the scan at position `idx` of its chunk upright.
pub fn rotation_for(idx: usize) -> (r: Rotation)
    ensures
        r == rotation_spec(idx as int),
{
    if idx % 2 == 0 {
        Rotation::Clockwise
    } else {
        Rotation::CounterClockwise
    }
}

/// A pixel rectangle: top-left corner `(x, y)` and its size.
#[derive(Clone, Copy, Debug, PartialEq, Eq, Structural)]
pub struct Rect {
    pub x: u32,
    pub y: u32,
    pub width: u32,
    pub height: u32,
}

/// Whether margin `m` leaves pixels in both halves of a `w` by `h` image.
pub open spec fn crop_fits(m: int, w: int, h: int) -> bool {
    &&& w / 2 - m > 0
    &&& w - w / 2 - m > 0
    &&& h - 2 * m > 0
}

/// Left page of a `w` by `h` image: from `(m, m)`, `w / 2 - m` wide and
/// `h - 2m` high.
pub open spec fn left_rect(m: int, w: int, h: int) -> Rect {
    Rect { x: m as u32, y: m as u32, width: (w / 2 - m) as u32, height: (h - 2 * m) as u32 }
}

/// Right page of a `w` by `h` image: from `(w / 2 - m, m)`, `w - w / 2 - m`
/// wide and `h - 2m` high.
pub open spec fn right_rect(m: int, w: int, h: int) -> Rect {
    Rect {
        x: (w / 2 - m) as u32,
        y: m as u32,
        width: (w - w / 2 - m) as u32,
        height: (h - 2 * m) as u32,
    }
}

/// The two page rectangles of a rotated `width` by `height` scan, on either
/// side of `width / 2 - margin`, with `margin` pixels trimmed off the top and
/// bottom; an error where the margin leaves no pixels in one of them.
pub fn crop_rects(margin: u32, width: u32, height: u32) -> (r: Result<(Rect, Rect), ValidationError>)
    ensures
        r is Ok <==> crop_fits(margin as int, width as int, height as int),
        r matches Ok((left, right)) ==> left == left_rect(margin as int, width as int, height as int)
            && right == right_rect(margin as int, width as int, height as int),
        r is Err ==> r == Err::<(Rect, Rect), ValidationError>(
            ValidationError::MarginTooLarge { margin, width, height },
        ),
{
    let half = width / 2;
    if half <= margin || height <= margin || height - margin <= margin {
        return Err(ValidationError::MarginTooLarge { margin, width, height });
    }
    let left = Rect { x: margin, y: margin, width: half - margin, height: height - 2 * margin };
    let right = Rect { x: half - margin, y: margin, width: width - half - margin, height: height - 2 * margin };
    Ok((left, right))
}

} // verus!
