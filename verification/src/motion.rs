//! Per-axis displacement over one time step, and the wide arithmetic that
//! computes it exactly.

use vstd::prelude::*;
use crate::geometry::abs_val;

verus! {

/// How far a coordinate moves in one step: velocity times the elapsed time,
/// and zero when the step is not positive. A scheduler paused at `dt <= 0` is
/// a normal condition: nothing moves, and a predicted position equals the
/// current one.
pub open spec fn displacement(v: int, dt: int) -> int {
    if dt <= 0 {
        0
    } else {
        v * dt
    }
}

/// Product of two machine words, exact in a double-wide word.
pub(crate) fn mul_wide(a: i64, b: i64) -> (r: i128)
    ensures
        r == a as int * b as int,
        -0x4000_0000_0000_0000_0000_0000_0000_0000 <= r <= 0x4000_0000_0000_0000_0000_0000_0000_0000,
{
    proof {
        assert(
            -0x4000_0000_0000_0000_0000_0000_0000_0000 <= (a as int) * (b as int)
                <= 0x4000_0000_0000_0000_0000_0000_0000_0000
        ) by (nonlinear_arith)
            requires
                -0x8000_0000_0000_0000 <= a as int <= 0x7fff_ffff_ffff_ffff,
                -0x8000_0000_0000_0000 <= b as int <= 0x7fff_ffff_ffff_ffff,
        ;
    }
    (a as i128) * (b as i128)
}

/// Displacement of one axis over one step, exact in a double-wide word.
pub(crate) fn displacement_wide(v: i64, dt: i64) -> (d: i128)
    ensures
        d == displacement(v as int, dt as int),
        -0x4000_0000_0000_0000_0000_0000_0000_0000 <= d <= 0x4000_0000_0000_0000_0000_0000_0000_0000,
{
    if dt <= 0 {
        0
    } else {
        mul_wide(v, dt)
    }
}

/// A displacement and the displacement of the negated velocity are opposite,
/// and the velocity's sign decides the displacement's sign.
pub proof fn lemma_displacement_of_abs(v: int, dt: int)
    ensures
        displacement(abs_val(v), dt) == abs_val(displacement(v, dt)),
        displacement(-abs_val(v), dt) == -abs_val(displacement(v, dt)),
{
    if dt > 0 {
        if v < 0 {
            assert((-v) * dt == -(v * dt) && v * dt <= 0) by (nonlinear_arith)
                requires
                    v < 0,
                    dt > 0,
            ;
        } else {
            assert((-v) * dt == -(v * dt) && v * dt >= 0) by (nonlinear_arith)
                requires
                    v >= 0,
                    dt > 0,
            ;
        }
    }
}

/// Velocities of equal magnitude move a coordinate equally far in magnitude.
pub proof fn lemma_displacement_same_magnitude(v1: int, v2: int, dt: int)
    requires
        abs_val(v1) == abs_val(v2),
    ensures
        abs_val(displacement(v1, dt)) == abs_val(displacement(v2, dt)),
{
    if v2 != v1 {
        assert(v2 == -v1);
        if dt > 0 {
            assert(v2 * dt == -(v1 * dt)) by (nonlinear_arith)
                requires
                    v2 == -v1,
            ;
        }
    }
}

} // verus!
