//! Integration: commit the (possibly just-reflected) velocity into the
//! position. Runs strictly after the collision phases of a step, so the net
//! velocity, not the pre-reflection one, is the one integrated. Mirroring the
//! new position into a host transform is the host's concern.

use vstd::prelude::*;
use crate::geometry::Vec2;
use crate::motion::{displacement, displacement_wide};
use crate::state::{Body, BodyView};

verus! {

/// A body after one integration step: each position axis advances by its
/// velocity's displacement; with `dt <= 0` nothing moves. Velocity and
/// half-extent are untouched.
pub open spec fn integrate_body(b: BodyView, dt: int) -> BodyView {
    BodyView { px: b.px + displacement(b.vx, dt), py: b.py + displacement(b.vy, dt), ..b }
}

/// Integration of one body. The advanced position must fit a machine word;
/// that is all that is asked.
pub fn integrate_one(b: &Body, dt: i64) -> (nb: Body)
    requires
        i64::MIN <= b@.px + displacement(b@.vx, dt as int) <= i64::MAX,
        i64::MIN <= b@.py + displacement(b@.vy, dt as int) <= i64::MAX,
    ensures
        nb@ == integrate_body(b@, dt as int),
{
    let wide_x: i128 = (b.position.x as i128) + displacement_wide(b.velocity.x, dt);
    let wide_y: i128 = (b.position.y as i128) + displacement_wide(b.velocity.y, dt);
    Body {
        position: Vec2 { x: wide_x as i64, y: wide_y as i64 },
        velocity: b.velocity,
        half_extent: b.half_extent,
    }
}

/// Integration of every body, in place.
pub fn integrate(bodies: &mut Vec<Body>, dt: i64)
    requires
        forall|i: int|
            0 <= i < old(bodies)@.len() ==> i64::MIN <= (#[trigger] old(bodies)@[i])@.px
                + displacement(old(bodies)@[i]@.vx, dt as int) <= i64::MAX,
        forall|i: int|
            0 <= i < old(bodies)@.len() ==> i64::MIN <= (#[trigger] old(bodies)@[i])@.py
                + displacement(old(bodies)@[i]@.vy, dt as int) <= i64::MAX,
    ensures
        final(bodies)@.len() == old(bodies)@.len(),
        forall|i: int|
            0 <= i < old(bodies)@.len() ==> (#[trigger] final(bodies)@[i])@ == integrate_body(
                old(bodies)@[i]@,
                dt as int,
            ),
{
    let ghost orig: Seq<Body> = bodies@;
    let n = bodies.len();
    let mut i: usize = 0;
    while i < n
        invariant
            i <= n,
            bodies@.len() == n,
            orig.len() == n,
            forall|j: int|
                0 <= j < n ==> i64::MIN <= (#[trigger] orig[j])@.px + displacement(
                    orig[j]@.vx,
                    dt as int,
                ) <= i64::MAX,
            forall|j: int|
                0 <= j < n ==> i64::MIN <= (#[trigger] orig[j])@.py + displacement(
                    orig[j]@.vy,
                    dt as int,
                ) <= i64::MAX,
            forall|j: int| i <= j < n ==> #[trigger] bodies@[j] == orig[j],
            forall|j: int|
                0 <= j < i ==> (#[trigger] bodies@[j])@ == integrate_body(orig[j]@, dt as int),
        decreases n - i,
    {
        let nb = integrate_one(&bodies[i], dt);
        bodies[i] = nb;
        i = i + 1;
    }
}

} // verus!
