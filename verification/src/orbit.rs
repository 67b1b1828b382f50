//! Orbit geometry: a node sits on a ring around its group's anchor, at a
//! radius that the ring decides and at an angle that its slot decides.

use crate::tree::ORBIT_ANGLES;
use vstd::prelude::*;

verus! {

/// The number of orbits that have an angle.
pub const ORBITS: usize = 16;

/// The angle of a slot on an orbit, in degrees from the positive x axis:
/// the orbit's step times the slot.
pub open spec fn slot_degrees(orbit: int, slot: int) -> int {
    ORBIT_ANGLES[orbit] * slot
}

/// The angle of a slot on an orbit, in degrees.
pub fn orbit_angle(orbit: usize, slot: usize) -> (r: i128)
    requires
        orbit < ORBITS,
    ensures
        r == slot_degrees(orbit as int, slot as int),
        0 <= r,
{
    let step: i32 = ORBIT_ANGLES[orbit];
    assert(0 <= step <= 330);
    assert(0 <= step * slot <= 330 * 0x1_0000_0000_0000_0000) by (nonlinear_arith)
        requires
            0 <= step <= 330,
            0 <= slot <= 0x1_0000_0000_0000_0000,
    ;
    step as i128 * slot as i128
}

} // verus!
