//! Axis-aligned bounding boxes and the inclusive overlap predicate.

use vstd::prelude::*;

verus! {

/// A two-dimensional vector with fixed-point integer coordinates.
#[derive(Clone, Copy, Debug, PartialEq, Eq, Structural)]
pub struct Vec2 {
    pub x: i64,
    pub y: i64,
}

/// An axis-aligned box, given by its center and its half-extent on each axis.
/// Boxes are derived on demand from a body or an obstacle; a zero half-extent
/// is a valid, degenerate box (a line or a point).
#[derive(Clone, Copy, Debug, PartialEq, Eq, Structural)]
pub struct Aabb {
    pub center: Vec2,
    pub half_extent: Vec2,
}

/// Absolute value of a mathematical integer.
pub open spec fn abs_val(x: int) -> int {
    if x < 0 {
        -x
    } else {
        x
    }
}

/// The projections of two boxes onto one axis overlap, boundaries included:
/// the distance of the centers is at most the sum of the half-extents.
pub open spec fn axis_overlaps(c1: int, h1: int, c2: int, h2: int) -> bool {
    abs_val(c1 - c2) <= h1 + h2
}

/// Two boxes overlap iff their projections overlap on both axes (inclusive).
pub open spec fn aabbs_overlap(a: Aabb, b: Aabb) -> bool {
    &&& axis_overlaps(
        a.center.x as int,
        a.half_extent.x as int,
        b.center.x as int,
        b.half_extent.x as int,
    )
    &&& axis_overlaps(
        a.center.y as int,
        a.half_extent.y as int,
        b.center.y as int,
        b.half_extent.y as int,
    )
}

/// One-axis overlap test on wide centers. Centers are `i128` because a
/// predicted position is a position plus a velocity-times-step product.
pub(crate) fn axis_overlap_wide(c1: i128, h1: i64, c2: i128, h2: i64) -> (r: bool)
    requires
        -i128::MAX <= c1 - c2 <= i128::MAX,
    ensures
        r == axis_overlaps(c1 as int, h1 as int, c2 as int, h2 as int),
{
    let d: i128 = c1 - c2;
    let ad: i128 = if d < 0 {
        -d
    } else {
        d
    };
    ad <= (h1 as i128) + (h2 as i128)
}

/// Overlap predicate on two boxes, total over all box values.
pub fn aabb_overlap(a: &Aabb, b: &Aabb) -> (r: bool)
    ensures
        r == aabbs_overlap(*a, *b),
{
    let on_x = axis_overlap_wide(
        a.center.x as i128,
        a.half_extent.x,
        b.center.x as i128,
        b.half_extent.x,
    );
    let on_y = axis_overlap_wide(
        a.center.y as i128,
        a.half_extent.y,
        b.center.y as i128,
        b.half_extent.y,
    );
    on_x && on_y
}

/// Overlap is symmetric: `overlap(a, b)` and `overlap(b, a)` agree.
pub proof fn lemma_overlap_symmetric(a: Aabb, b: Aabb)
    ensures
        aabbs_overlap(a, b) == aabbs_overlap(b, a),
{
}

/// Overlap is reflexive: any box with nonnegative half-extents overlaps itself.
pub proof fn lemma_overlap_reflexive(a: Aabb)
    requires
        a.half_extent.x >= 0,
        a.half_extent.y >= 0,
    ensures
        aabbs_overlap(a, a),
{
}

} // verus!
