//! Integer screen positions.
//!
//! Event coordinates are tracked in fixed integer units so that distance
//! comparisons (for multi-tap detection) are exact.

use vstd::prelude::*;

verus! {

/// A two-dimensional position in integer device units.
#[derive(Clone, Copy, PartialEq, Eq, Structural, Debug)]
pub struct Pos {
    pub x: i32,
    pub y: i32,
}

/// Whether `a` and `b` lie within `dist` units of each other on both axes
/// (Chebyshev distance), the measure used by the tap accumulator.
pub open spec fn near(a: Pos, b: Pos, dist: u32) -> bool {
    &&& -(dist as int) <= a.x - b.x <= dist as int
    &&& -(dist as int) <= a.y - b.y <= dist as int
}

/// Decides [`near`] exactly; all arithmetic is widened so it cannot overflow.
pub fn is_near(a: Pos, b: Pos, dist: u32) -> (r: bool)
    ensures
        r == near(a, b, dist),
{
    let dx: i64 = a.x as i64 - b.x as i64;
    let dy: i64 = a.y as i64 - b.y as i64;
    let d: i64 = dist as i64;
    -d <= dx && dx <= d && -d <= dy && dy <= d
}

} // verus!
