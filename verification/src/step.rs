//! One full simulation step, in the order the design fixes: boundary
//! reflection, then predictive obstacle collision, then integration. The two
//! collision phases read the same position snapshot; only integration, which
//! is terminal, advances it. This module also proves the containment law: the
//! boundary rule keeps a body within the arena, up to one step's travel.

use vstd::prelude::*;
use crate::boundary::{
    apply_boundary_reflection,
    boundary_reflect,
    lemma_boundary_reflect_preserves,
    reflect_axis_at_boundary,
};
use crate::geometry::abs_val;
use crate::integration::{integrate, integrate_body};
use crate::motion::{
    displacement,
    lemma_displacement_of_abs,
    lemma_displacement_same_magnitude,
};
use crate::prediction::{
    detect_future_collisions,
    lemma_obstacles_reflect_preserves,
    obstacles_reflect,
};
use crate::state::{Arena, Body, BodyView, Obstacle};

verus! {

/// A body after one full step: boundary reflection, then the predictive test
/// against every obstacle in order, then integration of the net velocity.
pub open spec fn step_body(b: BodyView, a: Arena, obs: Seq<Obstacle>, dt: int) -> BodyView {
    integrate_body(obstacles_reflect(boundary_reflect(b, a), obs, dt), dt)
}

/// One full simulation step over every body, in place. Velocities must be
/// negatable in a machine word, and each position must have room for one
/// step's travel on each side; the travel bound covers every sign the two
/// reflection phases can give the velocity.
pub fn simulation_step(bodies: &mut Vec<Body>, obstacles: &Vec<Obstacle>, arena: &Arena, dt: i64)
    requires
        forall|i: int|
            0 <= i < old(bodies)@.len() ==> (#[trigger] old(bodies)@[i]).velocity.x > i64::MIN
                && old(bodies)@[i].velocity.y > i64::MIN,
        forall|i: int|
            0 <= i < old(bodies)@.len() ==> i64::MIN <= (#[trigger] old(bodies)@[i])@.px - abs_val(
                displacement(old(bodies)@[i]@.vx, dt as int),
            ) && old(bodies)@[i]@.px + abs_val(displacement(old(bodies)@[i]@.vx, dt as int))
                <= i64::MAX,
        forall|i: int|
            0 <= i < old(bodies)@.len() ==> i64::MIN <= (#[trigger] old(bodies)@[i])@.py - abs_val(
                displacement(old(bodies)@[i]@.vy, dt as int),
            ) && old(bodies)@[i]@.py + abs_val(displacement(old(bodies)@[i]@.vy, dt as int))
                <= i64::MAX,
    ensures
        final(bodies)@.len() == old(bodies)@.len(),
        forall|i: int|
            0 <= i < old(bodies)@.len() ==> (#[trigger] final(bodies)@[i])@ == step_body(
                old(bodies)@[i]@,
                *arena,
                obstacles@,
                dt as int,
            ),
{
    let ghost orig: Seq<Body> = bodies@;
    apply_boundary_reflection(bodies, arena);
    proof {
        assert forall|i: int|
            0 <= i < bodies@.len() implies (#[trigger] bodies@[i]).velocity.x > i64::MIN
            && bodies@[i].velocity.y > i64::MIN by {
            lemma_boundary_reflect_preserves(orig[i]@, *arena);
        }
    }
    detect_future_collisions(bodies, obstacles, dt);
    proof {
        assert forall|i: int|
            0 <= i < bodies@.len() implies i64::MIN <= (#[trigger] bodies@[i])@.px + displacement(
            bodies@[i]@.vx,
            dt as int,
        ) <= i64::MAX && i64::MIN <= bodies@[i]@.py + displacement(bodies@[i]@.vy, dt as int)
            <= i64::MAX by {
            lemma_boundary_reflect_preserves(orig[i]@, *arena);
            lemma_obstacles_reflect_preserves(
                boundary_reflect(orig[i]@, *arena),
                obstacles@,
                dt as int,
            );
            lemma_displacement_same_magnitude(bodies@[i]@.vx, orig[i]@.vx, dt as int);
            lemma_displacement_same_magnitude(bodies@[i]@.vy, orig[i]@.vy, dt as int);
        }
    }
    integrate(bodies, dt);
}

/// The position `p` lies within `[c - s/2 - m, c + s/2 + m]`, the arena span
/// on one axis widened by a margin; doubled so it stays exact in integers.
pub open spec fn within_interval(p: int, c: int, s: int, m: int) -> bool {
    -(s + 2 * m) <= 2 * (p - c) <= s + 2 * m
}

/// The body lies within the arena rectangle, each axis widened by its margin.
pub open spec fn contained_with_margin(b: BodyView, a: Arena, mx: int, my: int) -> bool {
    &&& within_interval(b.px, a.center.x as int, a.size.x as int, mx)
    &&& within_interval(b.py, a.center.y as int, a.size.y as int, my)
}

/// A body after boundary reflection and integration alone — the two phases
/// the containment law speaks of.
pub open spec fn boundary_step(b: BodyView, a: Arena, dt: int) -> BodyView {
    integrate_body(boundary_reflect(b, a), dt)
}

/// With no obstacles, a full simulation step is exactly one boundary step, so
/// the containment law below speaks of the pipeline itself.
pub proof fn lemma_step_without_obstacles(b: BodyView, a: Arena, dt: int)
    ensures
        step_body(b, a, Seq::<Obstacle>::empty(), dt) == boundary_step(b, a, dt),
{
}

/// `n` repetitions of `boundary_step`.
pub open spec fn boundary_steps(b: BodyView, a: Arena, dt: int, n: nat) -> BodyView
    decreases n,
{
    if n == 0 {
        b
    } else {
        boundary_step(boundary_steps(b, a, dt, (n - 1) as nat), a, dt)
    }
}

/// One axis of the containment argument: reflecting then advancing keeps the
/// position within the widened span, where the margin is one step's travel.
proof fn lemma_axis_step_contained(p: int, v: int, c: int, s: int, dt: int)
    requires
        s >= 0,
        within_interval(p, c, s, abs_val(displacement(v, dt))),
    ensures
        within_interval(
            p + displacement(reflect_axis_at_boundary(p, v, c, s), dt),
            c,
            s,
            abs_val(displacement(v, dt)),
        ),
{
    lemma_displacement_of_abs(v, dt);
}

/// One boundary-plus-integration step keeps a contained body contained, with
/// the margin of one step's travel per axis, and keeps both velocity
/// magnitudes.
pub proof fn lemma_boundary_step_contained(b: BodyView, a: Arena, dt: int)
    requires
        a.size.x >= 0,
        a.size.y >= 0,
        contained_with_margin(
            b,
            a,
            abs_val(displacement(b.vx, dt)),
            abs_val(displacement(b.vy, dt)),
        ),
    ensures
        contained_with_margin(
            boundary_step(b, a, dt),
            a,
            abs_val(displacement(b.vx, dt)),
            abs_val(displacement(b.vy, dt)),
        ),
        abs_val(boundary_step(b, a, dt).vx) == abs_val(b.vx),
        abs_val(boundary_step(b, a, dt).vy) == abs_val(b.vy),
{
    lemma_axis_step_contained(b.px, b.vx, a.center.x as int, a.size.x as int, dt);
    lemma_axis_step_contained(b.py, b.vy, a.center.y as int, a.size.y as int, dt);
}

/// Containment under reflection: a body that starts within the arena span
/// widened by one step's travel stays within it over arbitrarily many
/// boundary-reflection-plus-integration steps, and its speed along each axis
/// never changes.
pub proof fn lemma_boundary_containment(b: BodyView, a: Arena, dt: int, n: nat)
    requires
        a.size.x >= 0,
        a.size.y >= 0,
        contained_with_margin(
            b,
            a,
            abs_val(displacement(b.vx, dt)),
            abs_val(displacement(b.vy, dt)),
        ),
    ensures
        contained_with_margin(
            boundary_steps(b, a, dt, n),
            a,
            abs_val(displacement(b.vx, dt)),
            abs_val(displacement(b.vy, dt)),
        ),
        abs_val(boundary_steps(b, a, dt, n).vx) == abs_val(b.vx),
        abs_val(boundary_steps(b, a, dt, n).vy) == abs_val(b.vy),
    decreases n,
{
    if n > 0 {
        let prev = boundary_steps(b, a, dt, (n - 1) as nat);
        lemma_boundary_containment(b, a, dt, (n - 1) as nat);
        lemma_displacement_same_magnitude(prev.vx, b.vx, dt);
        lemma_displacement_same_magnitude(prev.vy, b.vy, dt);
        lemma_boundary_step_contained(prev, a, dt);
    }
}

} // verus!
