//! Boundary reflection: keep every body inside the arena rectangle by forcing
//! the velocity back toward the center once the position has left the bounds.
//! This is a position-based correction, deliberately simpler than the
//! predictive obstacle test: it reacts one step after the position crossed the
//! boundary, it never moves the position itself.

use vstd::prelude::*;
use crate::geometry::abs_val;
use crate::state::{Arena, Body, BodyView};

verus! {

/// One axis of the boundary rule. With `c` the arena center and `s` the full
/// arena size on this axis, a position is below bounds when `p < c - s/2` and
/// above them when `p > c + s/2`; both comparisons are doubled so they stay
/// exact in integers. Below bounds the velocity is forced nonnegative, above
/// them nonpositive, otherwise it is left alone.
pub open spec fn reflect_axis_at_boundary(p: int, v: int, c: int, s: int) -> int {
    if 2 * (p - c) < -s {
        abs_val(v)
    } else if 2 * (p - c) > s {
        -abs_val(v)
    } else {
        v
    }
}

/// A body after boundary reflection: position and half-extent are untouched,
/// each velocity axis follows `reflect_axis_at_boundary` independently.
pub open spec fn boundary_reflect(b: BodyView, a: Arena) -> BodyView {
    BodyView {
        vx: reflect_axis_at_boundary(b.px, b.vx, a.center.x as int, a.size.x as int),
        vy: reflect_axis_at_boundary(b.py, b.vy, a.center.y as int, a.size.y as int),
        ..b
    }
}

/// Boundary reflection keeps each velocity axis's magnitude: the result is the
/// axis value or its negation.
pub proof fn lemma_boundary_reflect_preserves(b: BodyView, a: Arena)
    ensures
        boundary_reflect(b, a).px == b.px,
        boundary_reflect(b, a).py == b.py,
        boundary_reflect(b, a).hx == b.hx,
        boundary_reflect(b, a).hy == b.hy,
        abs_val(boundary_reflect(b, a).vx) == abs_val(b.vx),
        abs_val(boundary_reflect(b, a).vy) == abs_val(b.vy),
{
}

/// One axis of the runtime rule. The doubled difference is formed in a
/// double-wide word, so any position and any center are accepted.
fn reflect_axis_exec(p: i64, v: i64, c: i64, s: i64) -> (nv: i64)
    requires
        v > i64::MIN,
    ensures
        nv as int == reflect_axis_at_boundary(p as int, v as int, c as int, s as int),
{
    let doubled: i128 = 2 * ((p as i128) - (c as i128));
    let magnitude: i64 = if v < 0 {
        -v
    } else {
        v
    };
    if doubled < -(s as i128) {
        magnitude
    } else if doubled > (s as i128) {
        -magnitude
    } else {
        v
    }
}

/// Boundary reflection of one body against the arena.
pub fn reflect_at_boundary(b: &Body, arena: &Arena) -> (nb: Body)
    requires
        b.velocity.x > i64::MIN,
        b.velocity.y > i64::MIN,
    ensures
        nb@ == boundary_reflect(b@, *arena),
{
    let nvx = reflect_axis_exec(b.position.x, b.velocity.x, arena.center.x, arena.size.x);
    let nvy = reflect_axis_exec(b.position.y, b.velocity.y, arena.center.y, arena.size.y);
    Body {
        position: b.position,
        velocity: crate::geometry::Vec2 { x: nvx, y: nvy },
        half_extent: b.half_extent,
    }
}

/// Boundary reflection of every body, in place. Velocities must be negatable
/// in a machine word; nothing else is asked of the state.
pub fn apply_boundary_reflection(bodies: &mut Vec<Body>, arena: &Arena)
    requires
        forall|i: int|
            0 <= i < old(bodies)@.len() ==> (#[trigger] old(bodies)@[i]).velocity.x > i64::MIN
                && old(bodies)@[i].velocity.y > i64::MIN,
    ensures
        final(bodies)@.len() == old(bodies)@.len(),
        forall|i: int|
            0 <= i < old(bodies)@.len() ==> (#[trigger] final(bodies)@[i])@ == boundary_reflect(
                old(bodies)@[i]@,
                *arena,
            ),
{
    let ghost orig: Seq<Body> = bodies@;
    let n = bodies.len();
    let mut i: usize = 0;
    while i < n
        invariant
            i <= n,
            bodies@.len() == n,
            orig.len() == n,
            forall|j: int|
                0 <= j < n ==> (#[trigger] orig[j]).velocity.x > i64::MIN && orig[j].velocity.y
                    > i64::MIN,
            forall|j: int| i <= j < n ==> #[trigger] bodies@[j] == orig[j],
            forall|j: int|
                0 <= j < i ==> (#[trigger] bodies@[j])@ == boundary_reflect(orig[j]@, *arena),
        decreases n - i,
    {
        let nb = reflect_at_boundary(&bodies[i], arena);
        bodies[i] = nb;
        i = i + 1;
    }
}

} // verus!
