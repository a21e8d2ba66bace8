//! Predictive obstacle collision: one step ahead of time, each body's x-only
//! and y-only projected position is tested against every active obstacle, and
//! the offending velocity axis is negated. Both axis tests use the body's
//! original position, never a partially advanced one, so a diagonal approach
//! cannot be reflected twice by one test. Obstacles are processed in
//! definition order and a velocity axis may be negated once per obstacle, so
//! the last obstacle processed wins. Positions are never changed here.

use vstd::prelude::*;
use crate::geometry::{abs_val, axis_overlap_wide, axis_overlaps, Vec2};
use crate::motion::{displacement, displacement_wide};
use crate::state::{obstacle_active, Body, BodyView, Obstacle};

verus! {

/// The body's box, displaced along x only by one step of its x velocity,
/// overlaps the obstacle's box.
pub open spec fn future_x_hits(b: BodyView, o: Obstacle, dt: int) -> bool {
    &&& axis_overlaps(
        b.px + displacement(b.vx, dt),
        b.hx,
        o.center.x as int,
        o.half_extent.x as int,
    )
    &&& axis_overlaps(b.py, b.hy, o.center.y as int, o.half_extent.y as int)
}

/// The body's box, displaced along y only by one step of its y velocity,
/// overlaps the obstacle's box.
pub open spec fn future_y_hits(b: BodyView, o: Obstacle, dt: int) -> bool {
    &&& axis_overlaps(b.px, b.hx, o.center.x as int, o.half_extent.x as int)
    &&& axis_overlaps(
        b.py + displacement(b.vy, dt),
        b.hy,
        o.center.y as int,
        o.half_extent.y as int,
    )
}

/// A body after the predictive test against one obstacle. An inactive
/// obstacle (an open gate) leaves the body untouched; otherwise each velocity
/// axis is negated iff its projected future box overlaps the obstacle, the two
/// axes tested independently against the original position.
pub open spec fn obstacle_reflect(b: BodyView, o: Obstacle, dt: int) -> BodyView {
    if !obstacle_active(o) {
        b
    } else {
        BodyView {
            vx: if future_x_hits(b, o, dt) {
                -b.vx
            } else {
                b.vx
            },
            vy: if future_y_hits(b, o, dt) {
                -b.vy
            } else {
                b.vy
            },
            ..b
        }
    }
}

/// A body after the predictive test against a sequence of obstacles, applied
/// in order: the body that the prefix produced is tested against the last
/// obstacle.
pub open spec fn obstacles_reflect(b: BodyView, obs: Seq<Obstacle>, dt: int) -> BodyView
    decreases obs.len(),
{
    if obs.len() == 0 {
        b
    } else {
        obstacle_reflect(obstacles_reflect(b, obs.drop_last(), dt), obs.last(), dt)
    }
}

/// The predictive test moves no position, keeps every half-extent, and keeps
/// the magnitude of each velocity axis.
pub proof fn lemma_obstacles_reflect_preserves(b: BodyView, obs: Seq<Obstacle>, dt: int)
    ensures
        obstacles_reflect(b, obs, dt).px == b.px,
        obstacles_reflect(b, obs, dt).py == b.py,
        obstacles_reflect(b, obs, dt).hx == b.hx,
        obstacles_reflect(b, obs, dt).hy == b.hy,
        abs_val(obstacles_reflect(b, obs, dt).vx) == abs_val(b.vx),
        abs_val(obstacles_reflect(b, obs, dt).vy) == abs_val(b.vy),
    decreases obs.len(),
{
    if obs.len() > 0 {
        lemma_obstacles_reflect_preserves(b, obs.drop_last(), dt);
    }
}

/// Gate transparency: an obstacle whose gate stands open changes no body, even
/// one whose future box would overlap it.
pub proof fn lemma_gate_transparency(b: BodyView, o: Obstacle, dt: int)
    requires
        o.gate == crate::state::Gate::Gated(true),
    ensures
        obstacle_reflect(b, o, dt) == b,
{
}

/// Axis independence: when only the x-projected future box overlaps an active
/// obstacle, exactly the x velocity is negated, and symmetrically for y.
pub proof fn lemma_axis_independence(b: BodyView, o: Obstacle, dt: int)
    requires
        obstacle_active(o),
    ensures
        future_x_hits(b, o, dt) && !future_y_hits(b, o, dt) ==> obstacle_reflect(b, o, dt)
            == (BodyView { vx: -b.vx, ..b }),
        future_y_hits(b, o, dt) && !future_x_hits(b, o, dt) ==> obstacle_reflect(b, o, dt)
            == (BodyView { vy: -b.vy, ..b }),
{
}

/// The predictive test of one body against one obstacle.
pub fn reflect_against_obstacle(b: &Body, o: &Obstacle, dt: i64) -> (nb: Body)
    requires
        b.velocity.x > i64::MIN,
        b.velocity.y > i64::MIN,
    ensures
        nb@ == obstacle_reflect(b@, *o, dt as int),
{
    if !crate::state::is_obstacle_active(o) {
        return *b;
    }
    let future_x: i128 = (b.position.x as i128) + displacement_wide(b.velocity.x, dt);
    let hit_x: bool = axis_overlap_wide(future_x, b.half_extent.x, o.center.x as i128, o.half_extent.x)
        && axis_overlap_wide(
        b.position.y as i128,
        b.half_extent.y,
        o.center.y as i128,
        o.half_extent.y,
    );
    let future_y: i128 = (b.position.y as i128) + displacement_wide(b.velocity.y, dt);
    let hit_y: bool = axis_overlap_wide(
        b.position.x as i128,
        b.half_extent.x,
        o.center.x as i128,
        o.half_extent.x,
    ) && axis_overlap_wide(future_y, b.half_extent.y, o.center.y as i128, o.half_extent.y);
    Body {
        position: b.position,
        velocity: Vec2 {
            x: if hit_x {
                -b.velocity.x
            } else {
                b.velocity.x
            },
            y: if hit_y {
                -b.velocity.y
            } else {
                b.velocity.y
            },
        },
        half_extent: b.half_extent,
    }
}

/// The predictive test of every body against every active obstacle, in place:
/// obstacles outer and in definition order, bodies inner, as
/// `obstacles_reflect` states per body. Velocities must be negatable in a
/// machine word; nothing else is asked of the state.
pub fn detect_future_collisions(bodies: &mut Vec<Body>, obstacles: &Vec<Obstacle>, dt: i64)
    requires
        forall|i: int|
            0 <= i < old(bodies)@.len() ==> (#[trigger] old(bodies)@[i]).velocity.x > i64::MIN
                && old(bodies)@[i].velocity.y > i64::MIN,
    ensures
        final(bodies)@.len() == old(bodies)@.len(),
        forall|i: int|
            0 <= i < old(bodies)@.len() ==> (#[trigger] final(bodies)@[i])@ == obstacles_reflect(
                old(bodies)@[i]@,
                obstacles@,
                dt as int,
            ),
{
    let ghost orig: Seq<Body> = bodies@;
    let n = bodies.len();
    let m = obstacles.len();
    let mut j: usize = 0;
    while j < m
        invariant
            j <= m,
            bodies@.len() == n,
            orig.len() == n,
            m == obstacles@.len(),
            forall|i: int|
                0 <= i < n ==> (#[trigger] orig[i]).velocity.x > i64::MIN && orig[i].velocity.y
                    > i64::MIN,
            forall|i: int|
                0 <= i < n ==> (#[trigger] bodies@[i])@ == obstacles_reflect(
                    orig[i]@,
                    obstacles@.take(j as int),
                    dt as int,
                ),
        decreases m - j,
    {
        let mut i: usize = 0;
        while i < n
            invariant
                i <= n,
                j < m,
                bodies@.len() == n,
                orig.len() == n,
                m == obstacles@.len(),
                forall|k: int|
                    0 <= k < n ==> (#[trigger] orig[k]).velocity.x > i64::MIN && orig[k].velocity.y
                        > i64::MIN,
                forall|k: int|
                    0 <= k < i ==> (#[trigger] bodies@[k])@ == obstacles_reflect(
                        orig[k]@,
                        obstacles@.take(j as int + 1),
                        dt as int,
                    ),
                forall|k: int|
                    i <= k < n ==> (#[trigger] bodies@[k])@ == obstacles_reflect(
                        orig[k]@,
                        obstacles@.take(j as int),
                        dt as int,
                    ),
            decreases n - i,
        {
            proof {
                lemma_obstacles_reflect_preserves(
                    orig[i as int]@,
                    obstacles@.take(j as int),
                    dt as int,
                );
                assert(obstacles@.take(j as int + 1).drop_last() =~= obstacles@.take(j as int));
                assert(obstacles@.take(j as int + 1).last() == obstacles@[j as int]);
            }
            let nb = reflect_against_obstacle(&bodies[i], &obstacles[j], dt);
            bodies[i] = nb;
            i = i + 1;
        }
        j = j + 1;
    }
    proof {
        assert(obstacles@.take(m as int) =~= obstacles@);
    }
}

} // verus!
