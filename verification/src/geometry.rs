//! Axis-aligned rectangles and the overlap test.

use vstd::prelude::*;
use crate::units::UNIT;

verus! {

/// A pair of coordinates: a place on the surface, or a velocity per tick.
#[derive(Clone, Copy, PartialEq, Eq, Structural, Debug)]
pub struct Point2 {
    pub x: i64,
    pub y: i64,
}

/// An axis-aligned rectangle: its top-left corner, width and height.
#[derive(Clone, Copy, PartialEq, Eq, Structural, Debug)]
pub struct Rect {
    pub x: i64,
    pub y: i64,
    pub w: i64,
    pub h: i64,
}

impl Rect {
    /// The x coordinate of the right edge.
    pub open spec fn right(self) -> int {
        self.x + self.w
    }

    /// The y coordinate of the bottom edge.
    pub open spec fn bottom(self) -> int {
        self.y + self.h
    }

    /// The rectangle with its top-left corner at `(x, y)`, `w` wide and `h`
    /// high.
    pub fn new(x: i64, y: i64, w: i64, h: i64) -> (r: Rect)
        ensures
            r == (Rect { x, y, w, h }),
    {
        Rect { x, y, w, h }
    }
}

/// Two rectangles overlap when their projections overlap strictly on both axes.
pub open spec fn spec_collide_rect(rect1: Rect, rect2: Rect) -> bool {
    &&& rect1.x < rect2.right()
    &&& rect1.right() > rect2.x
    &&& rect1.y < rect2.bottom()
    &&& rect1.bottom() > rect2.y
}

/// Tells whether two rectangles overlap. Rectangles that only touch do not.
pub fn collide_rect(rect1: &Rect, rect2: &Rect) -> (hit: bool)
    ensures
        hit == spec_collide_rect(*rect1, *rect2),
{
    let rect1right: i128 = rect1.x as i128 + rect1.w as i128;
    let rect1bottom: i128 = rect1.y as i128 + rect1.h as i128;
    let rect2right: i128 = rect2.x as i128 + rect2.w as i128;
    let rect2bottom: i128 = rect2.y as i128 + rect2.h as i128;
    (rect1.x as i128) < rect2right && rect1right > rect2.x as i128
        && (rect1.y as i128) < rect2bottom && rect1bottom > rect2.y as i128
}

/// The quotient of `v` by a positive `d`, rounded towards zero.
pub open spec fn trunc_div(v: int, d: int) -> int {
    if v >= 0 {
        v / d
    } else {
        -((-v) / d)
    }
}

/// The whole logical units in a length, rounded towards zero.
pub open spec fn spec_whole_units(v: int) -> int {
    trunc_div(v, UNIT as int)
}

/// The whole logical units in a length, rounded towards zero.
pub fn whole_units(v: i64) -> (r: i64)
    ensures
        r == spec_whole_units(v as int),
{
    v / UNIT
}

/// The column of a rectangle's horizontal centre: the whole units of its
/// left edge plus the whole units of half its width, each rounded towards
/// zero.
pub open spec fn spec_center_column(rect: Rect) -> int {
    spec_whole_units(rect.x as int) + trunc_div(rect.w as int, 2 * UNIT)
}

/// The column of a rectangle's horizontal centre.
pub fn center_column(rect: &Rect) -> (column: i64)
    ensures
        column == spec_center_column(*rect),
{
    whole_units(rect.x) + rect.w / (2 * UNIT)
}

} // verus!
