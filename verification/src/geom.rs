//! Plane geometry for the simulation.
//!
//! Coordinates are integers in milli-units (thousandths of a world unit),
//! the y axis growing downward.  Overlap tests follow the usual strict
//! axis-aligned rule: two boxes overlap when their interiors intersect, so a
//! shared edge does not count and an empty box overlaps nothing.
//!
//! To centre a box on a point one must halve its extent; to keep that exact
//! for odd extents, the overlap predicates work in *doubled* coordinates
//! (`2 * centre ± extent`), where no division appears at all.  The `Rect`
//! helpers, which hand sub-rectangles out to callers, use a flooring halving
//! instead and saturate on the `i64` range.

use crate::num::sat64;
use vstd::prelude::*;

verus! {

/// A point or a velocity in the plane.
#[derive(Clone, Copy, Debug, PartialEq, Eq, Structural)]
pub struct Vec2 {
    pub x: i64,
    pub y: i64,
}

/// The size of a sprite's bounding box, in milli-units; never negative.
#[derive(Clone, Copy, Debug, PartialEq, Eq, Structural)]
pub struct Extent {
    pub width: i64,
    pub height: i64,
}

/// An axis-aligned rectangle: top-left corner plus size, in milli-units.
#[derive(Clone, Copy, Debug, PartialEq, Eq, Structural)]
pub struct Rect {
    pub x: i64,
    pub y: i64,
    pub width: i64,
    pub height: i64,
}

/// Doubled x coordinate of the left edge of a box of extent `e` centred at `c`.
pub open spec fn left2(c: Vec2, e: Extent) -> int {
    2 * c.x - e.width
}

/// Doubled x coordinate of the right edge.
pub open spec fn right2(c: Vec2, e: Extent) -> int {
    2 * c.x + e.width
}

/// Doubled y coordinate of the top edge.
pub open spec fn top2(c: Vec2, e: Extent) -> int {
    2 * c.y - e.height
}

/// Doubled y coordinate of the bottom edge.
pub open spec fn bottom2(c: Vec2, e: Extent) -> int {
    2 * c.y + e.height
}

/// Two intervals, given by their endpoints, share an interior point.
pub open spec fn spans_overlap(a_lo: int, a_hi: int, b_lo: int, b_hi: int) -> bool {
    a_lo < b_hi && b_lo < a_hi
}

/// Whole-box overlap of two boxes given by centre and extent.
pub open spec fn boxes_overlap(c1: Vec2, e1: Extent, c2: Vec2, e2: Extent) -> bool {
    &&& spans_overlap(left2(c1, e1), right2(c1, e1), left2(c2, e2), right2(c2, e2))
    &&& spans_overlap(top2(c1, e1), bottom2(c1, e1), top2(c2, e2), bottom2(c2, e2))
}

/// Whole-box overlap, decided exactly (`i128` arithmetic cannot overflow on
/// doubled `i64` coordinates).
pub fn check_boxes_overlap(c1: Vec2, e1: Extent, c2: Vec2, e2: Extent) -> (r: bool)
    ensures
        r == boxes_overlap(c1, e1, c2, e2),
{
    let l1: i128 = 2 * (c1.x as i128) - (e1.width as i128);
    let r1: i128 = 2 * (c1.x as i128) + (e1.width as i128);
    let t1: i128 = 2 * (c1.y as i128) - (e1.height as i128);
    let b1: i128 = 2 * (c1.y as i128) + (e1.height as i128);
    let l2: i128 = 2 * (c2.x as i128) - (e2.width as i128);
    let r2: i128 = 2 * (c2.x as i128) + (e2.width as i128);
    let t2: i128 = 2 * (c2.y as i128) - (e2.height as i128);
    let b2: i128 = 2 * (c2.y as i128) + (e2.height as i128);
    l1 < r2 && l2 < r1 && t1 < b2 && t2 < b1
}

/// Strict overlap of two rectangles given as top-left corner plus size.
pub open spec fn rect_overlap(a: Rect, b: Rect) -> bool {
    &&& a.x < b.x + b.width
    &&& b.x < a.x + a.width
    &&& a.y < b.y + b.height
    &&& b.y < a.y + a.height
}

impl Rect {
    /// Strict overlap test, decided exactly.
    pub fn overlaps(&self, other: &Rect) -> (r: bool)
        ensures
            r == rect_overlap(*self, *other),
    {
        let ax: i128 = self.x as i128;
        let ay: i128 = self.y as i128;
        let bx: i128 = other.x as i128;
        let by: i128 = other.y as i128;
        ax < bx + other.width as i128 && bx < ax + self.width as i128 && ay < by
            + other.height as i128 && by < ay + self.height as i128
    }

    /// The rectangle of the same size whose centre is `c`; the halved extent
    /// is floored and the corner saturates on the `i64` range.
    pub fn with_center(&self, c: Vec2) -> (r: Rect)
        requires
            self.width >= 0,
            self.height >= 0,
        ensures
            r.x as int == sat64(c.x - self.width / 2),
            r.y as int == sat64(c.y - self.height / 2),
            r.width == self.width,
            r.height == self.height,
    {
        let half_w: i64 = self.width / 2;
        let half_h: i64 = self.height / 2;
        let x: i128 = (c.x as i128) - (half_w as i128);
        let y: i128 = (c.y as i128) - (half_h as i128);
        Rect {
            x: clip128(x),
            y: clip128(y),
            width: self.width,
            height: self.height,
        }
    }
}

/// Pins an `i128` into the `i64` range (geometry-local copy of the clip).
fn clip128(v: i128) -> (r: i64)
    ensures
        r as int == sat64(v as int),
{
    if v > i64::MAX as i128 {
        i64::MAX
    } else if v < i64::MIN as i128 {
        i64::MIN
    } else {
        v as i64
    }
}

} // verus!
