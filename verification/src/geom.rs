//! Integer geometry: world-space points and sheet-space rectangles.
//!
//! World coordinates are integers in thousandths of a world unit, so that
//! slice rectangles (whole pixels) and pointer positions share one exact
//! representation.

use vstd::prelude::*;

verus! {

/// A two-dimensional point or extent in world space, in thousandths of a
/// world unit.
#[derive(Clone, Copy, PartialEq, Eq, Structural, Debug)]
pub struct Vec2i {
    pub x: i64,
    pub y: i64,
}

/// An integer sub-rectangle, used both for frame placement inside the shared
/// sheet texture and for slice bounding boxes (whole pixels, top-left origin).
#[derive(Clone, Copy, PartialEq, Eq, Structural, Debug)]
pub struct Rect {
    pub x: i32,
    pub y: i32,
    pub w: i32,
    pub h: i32,
}

/// A width/height pair in whole pixels, as the sheet export states sizes.
#[derive(Clone, Copy, PartialEq, Eq, Structural, Debug)]
pub struct AsepriteSize {
    pub w: i32,
    pub h: i32,
}

/// Whether `point` lies in the axis-aligned box with minimum corner `pos` and
/// extent `size`, inclusive at all four edges.
pub open spec fn point_in_box(pos: Vec2i, size: Vec2i, point: Vec2i) -> bool {
    &&& pos.x <= point.x <= pos.x + size.x
    &&& pos.y <= point.y <= pos.y + size.y
}

/// Inclusive point-in-box containment test.
pub fn is_point_inside_box(pos: &Vec2i, size: &Vec2i, point: &Vec2i) -> (r: bool)
    ensures
        r == point_in_box(*pos, *size, *point),
{
    let max_x: i128 = pos.x as i128 + size.x as i128;
    let max_y: i128 = pos.y as i128 + size.y as i128;
    let is_outside = (point.x as i128) < (pos.x as i128) || (point.y as i128) < (pos.y as i128)
        || max_x < (point.x as i128) || max_y < (point.y as i128);
    !is_outside
}

/// `v` clamped into the value range of `i64`.
pub open spec fn clamp_i64(v: int) -> int {
    if v > i64::MAX {
        i64::MAX as int
    } else if v < i64::MIN {
        i64::MIN as int
    } else {
        v
    }
}

/// Signed division by 1000 that truncates toward zero, as machine division
/// does.
pub open spec fn trunc_div_1000(p: int) -> int {
    if p >= 0 {
        p / 1000
    } else {
        -((-p) / 1000)
    }
}

/// Addition on world coordinates, saturating at the `i64` range instead of
/// overflowing.
pub fn sat_add(a: i64, b: i64) -> (r: i64)
    ensures
        r == clamp_i64(a + b),
{
    let s: i128 = a as i128 + b as i128;
    if s > i64::MAX as i128 {
        i64::MAX
    } else if s < i64::MIN as i128 {
        i64::MIN
    } else {
        s as i64
    }
}

/// Containment is inclusive at every edge: a point whose coordinate lies
/// exactly on `pos` or on `pos + size` still counts as inside, as long as the
/// other coordinate is within range.
pub proof fn lemma_box_edges_inclusive(pos: Vec2i, size: Vec2i, point: Vec2i)
    requires
        size.x >= 0,
        size.y >= 0,
        (point.x == pos.x || point.x == pos.x + size.x) && pos.y <= point.y <= pos.y + size.y
            || (point.y == pos.y || point.y == pos.y + size.y) && pos.x <= point.x
                <= pos.x + size.x,
    ensures
        point_in_box(pos, size, point),
{
}

} // verus!
