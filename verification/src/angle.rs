//! The angular sector test behind the collision rule, over millidegree
//! bearings already reduced modulo a full turn.
use vstd::prelude::*;
use crate::TURN_MDEG;

verus! {

/// A bearing `ang` lies strictly inside the sector `(min, max)`, where
/// both bounds have been reduced modulo a full turn.  When `max < min`
/// the sector crosses the zero bearing and wraps around, so the inside
/// is everything above `min` or below `max`.
pub open spec fn in_sector(ang: int, min: int, max: int) -> bool {
    if max > min {
        min < ang && ang < max
    } else {
        ang > min || ang < max
    }
}

/// Wraparound correctness of the sector test.  When the sector's upper
/// bound is numerically below its lower bound, a bearing anywhere above
/// the lower bound (up to the full turn) is inside, and a bearing
/// strictly between the two bounds — the arc the sector does not cover —
/// is outside.
pub proof fn lemma_in_sector_wraparound(ang: int, min: int, max: int)
    requires
        0 <= max < min < TURN_MDEG,
        0 <= ang < TURN_MDEG,
    ensures
        min < ang ==> in_sector(ang, min, max),
        ang < max ==> in_sector(ang, min, max),
        max < ang && ang < min ==> !in_sector(ang, min, max),
{
}

} // verus!
