//! Positions in milli-units (thousandths of a world unit) and squared
//! distances in micro-units, so that a range test needs no square root.

use vstd::prelude::*;

verus! {

/// Coordinates are kept within one thousand world units of the origin, which
/// keeps every squared distance inside 64-bit arithmetic.
pub const COORD_MAX_MILLI: i64 = 1000000;

/// A point or extent in thousandths of a world unit.
#[derive(Clone, Copy, Debug, PartialEq, Eq, Structural)]
pub struct Vec3Milli {
    pub x: i64,
    pub y: i64,
    pub z: i64,
}

impl Vec3Milli {
    /// Builds a point from milli-unit coordinates.
    pub fn new(x: i64, y: i64, z: i64) -> (v: Vec3Milli)
        ensures
            v == (Vec3Milli { x, y, z }),
    {
        Vec3Milli { x, y, z }
    }

    /// All coordinates within the world bound.
    pub open spec fn wf(self) -> bool {
        &&& -COORD_MAX_MILLI <= self.x <= COORD_MAX_MILLI
        &&& -COORD_MAX_MILLI <= self.y <= COORD_MAX_MILLI
        &&& -COORD_MAX_MILLI <= self.z <= COORD_MAX_MILLI
    }
}

/// The squared Euclidean distance between `a` and `b`, in micro-units
/// (millionths of a squared world unit).
pub open spec fn dist_sq_micro(a: Vec3Milli, b: Vec3Milli) -> int {
    (a.x - b.x) * (a.x - b.x) + (a.y - b.y) * (a.y - b.y) + (a.z - b.z) * (a.z - b.z)
}

/// Computes the squared distance between two in-bounds points.
pub fn distance_sq_micro(a: &Vec3Milli, b: &Vec3Milli) -> (d: u64)
    requires
        a.wf(),
        b.wf(),
    ensures
        d == dist_sq_micro(*a, *b),
{
    let dx: i64 = a.x - b.x;
    let dy: i64 = a.y - b.y;
    let dz: i64 = a.z - b.z;
    proof {
        lemma_square_bounded(dx as int);
        lemma_square_bounded(dy as int);
        lemma_square_bounded(dz as int);
    }
    let sx: i64 = dx * dx;
    let sy: i64 = dy * dy;
    let sz: i64 = dz * dz;
    (sx + sy + sz) as u64
}

/// The square of a bounded coordinate difference is nonnegative and bounded.
proof fn lemma_square_bounded(d: int)
    requires
        -2 * COORD_MAX_MILLI <= d <= 2 * COORD_MAX_MILLI,
    ensures
        0 <= d * d <= 4 * COORD_MAX_MILLI * COORD_MAX_MILLI,
{
    assert(0 <= d * d <= (2 * COORD_MAX_MILLI) * (2 * COORD_MAX_MILLI)) by (nonlinear_arith)
        requires
            -2 * COORD_MAX_MILLI <= d <= 2 * COORD_MAX_MILLI,
    ;
    assert((2 * COORD_MAX_MILLI) * (2 * COORD_MAX_MILLI) == 4 * COORD_MAX_MILLI
        * COORD_MAX_MILLI) by (nonlinear_arith);
}

} // verus!
