//! The simulation's data: dynamic bodies, static obstacles with an optional
//! gate, the arena bounds, and the speed classification of a body.

use vstd::prelude::*;
use crate::geometry::Vec2;

verus! {

/// A dynamic body: a position and a velocity, both mutated every step, and a
/// fixed half-extent for collision testing. Well-formed bodies have positive
/// half-extents (`body_wf`); a body's box may still be tested degenerately.
#[derive(Clone, Copy, Debug, PartialEq, Eq, Structural)]
pub struct Body {
    pub position: Vec2,
    pub velocity: Vec2,
    pub half_extent: Vec2,
}

/// The mathematical value of a body: its six coordinates as unbounded
/// integers. The dynamics are specified on this view, so the model functions
/// stay free of machine-word casts.
pub ghost struct BodyView {
    pub px: int,
    pub py: int,
    pub vx: int,
    pub vy: int,
    pub hx: int,
    pub hy: int,
}

impl View for Body {
    type V = BodyView;

    open spec fn view(&self) -> BodyView {
        BodyView {
            px: self.position.x as int,
            py: self.position.y as int,
            vx: self.velocity.x as int,
            vy: self.velocity.y as int,
            hx: self.half_extent.x as int,
            hy: self.half_extent.y as int,
        }
    }
}

/// A body's structural invariant: half-extents are strictly positive.
pub open spec fn body_wf(b: Body) -> bool {
    b.half_extent.x > 0 && b.half_extent.y > 0
}

impl Body {
    /// Builds a well-formed body.
    pub fn new(position: Vec2, velocity: Vec2, half_extent: Vec2) -> (b: Body)
        requires
            half_extent.x > 0,
            half_extent.y > 0,
        ensures
            b.position == position,
            b.velocity == velocity,
            b.half_extent == half_extent,
            body_wf(b),
    {
        Body { position, velocity, half_extent }
    }
}

/// Whether an obstacle carries a gate. A fixed obstacle always participates
/// in collision testing; a gated one participates only while its flag is
/// false (gate closed). The flag is toggled between steps by the host, never
/// by this core.
#[derive(Clone, Copy, Debug, PartialEq, Eq, Structural)]
pub enum Gate {
    Fixed,
    Gated(bool),
}

/// A static obstacle: a center that never changes, a half-extent, and the
/// gate variant.
#[derive(Clone, Copy, Debug, PartialEq, Eq, Structural)]
pub struct Obstacle {
    pub center: Vec2,
    pub half_extent: Vec2,
    pub gate: Gate,
}

/// An obstacle participates in collision testing this step unless it is a
/// gate that stands open.
pub open spec fn obstacle_active(o: Obstacle) -> bool {
    match o.gate {
        Gate::Fixed => true,
        Gate::Gated(open) => !open,
    }
}

/// Runtime test of `obstacle_active`.
pub fn is_obstacle_active(o: &Obstacle) -> (r: bool)
    ensures
        r == obstacle_active(*o),
{
    match o.gate {
        Gate::Fixed => true,
        Gate::Gated(open) => !open,
    }
}

/// The arena rectangle: a center and a full size (width and height, not
/// half), fixed for the run.
#[derive(Clone, Copy, Debug, PartialEq, Eq, Structural)]
pub struct Arena {
    pub center: Vec2,
    pub size: Vec2,
}

/// The presentation-facing classification of a body by speed.
#[derive(Clone, Copy, Debug, PartialEq, Eq, Structural)]
pub enum Speed {
    Fast,
    Slow,
}

/// A body is fast only when its speed strictly exceeds this many world units
/// per second; `classify_speed` expects a velocity in those units.
pub const SPEED_THRESHOLD: i64 = 155;

/// The squared magnitude of a velocity; comparing squares keeps the
/// classification exact in integers.
pub open spec fn speed_squared(v: Vec2) -> int {
    v.x * v.x + v.y * v.y
}

/// A velocity is `Fast` iff its magnitude strictly exceeds `SPEED_THRESHOLD`;
/// a magnitude exactly at the threshold is `Slow`.
pub open spec fn speed_class(v: Vec2) -> Speed {
    if speed_squared(v) > (SPEED_THRESHOLD as int) * (SPEED_THRESHOLD as int) {
        Speed::Fast
    } else {
        Speed::Slow
    }
}

/// Classifies a velocity by magnitude, total over all velocities: the squares
/// are compared in unsigned double-wide words.
pub fn classify_speed(v: &Vec2) -> (s: Speed)
    ensures
        s == speed_class(*v),
{
    let wx: i128 = v.x as i128;
    let wy: i128 = v.y as i128;
    let ax: i128 = if wx < 0 {
        -wx
    } else {
        wx
    };
    let ay: i128 = if wy < 0 {
        -wy
    } else {
        wy
    };
    proof {
        assert((ax as int) * (ax as int) == (v.x as int) * (v.x as int)
            && (ax as int) * (ax as int) <= 0x4000_0000_0000_0000_0000_0000_0000_0000)
            by (nonlinear_arith)
            requires
                (v.x as int) >= 0 ==> ax as int == v.x as int,
                (v.x as int) < 0 ==> ax as int == -(v.x as int),
                -0x8000_0000_0000_0000 <= v.x as int <= 0x7fff_ffff_ffff_ffff,
        ;
        assert((ay as int) * (ay as int) == (v.y as int) * (v.y as int)
            && (ay as int) * (ay as int) <= 0x4000_0000_0000_0000_0000_0000_0000_0000)
            by (nonlinear_arith)
            requires
                (v.y as int) >= 0 ==> ay as int == v.y as int,
                (v.y as int) < 0 ==> ay as int == -(v.y as int),
                -0x8000_0000_0000_0000 <= v.y as int <= 0x7fff_ffff_ffff_ffff,
        ;
    }
    let sx: u128 = (ax as u128) * (ax as u128);
    let sy: u128 = (ay as u128) * (ay as u128);
    let threshold_squared: u128 = (SPEED_THRESHOLD as u128) * (SPEED_THRESHOLD as u128);
    if sx + sy > threshold_squared {
        Speed::Fast
    } else {
        Speed::Slow
    }
}

} // verus!
