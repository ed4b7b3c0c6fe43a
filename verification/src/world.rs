//! World-snapshot geometry: positions and range queries.
//!
//! Coordinates are integers in thousandths of a world unit, so a range
//! of 3.0 world units is the coordinate value 3000.  Range checks
//! compare squared Euclidean distances, which keeps every comparison
//! exact.

use vstd::prelude::*;

verus! {

/// Largest coordinate magnitude the world uses.  Keeping every
/// coordinate within this bound lets a squared distance fit in `u64`.
pub const MAX_COORD: i64 = 1_000_000_000;

/// A point of the 3D world, in thousandths of a world unit.
#[derive(Clone, Copy, Debug, PartialEq, Eq, Structural)]
pub struct Position {
    pub x: i64,
    pub y: i64,
    pub z: i64,
}

impl Position {
    /// Whether every coordinate is within the world bound.
    pub open spec fn in_world(self) -> bool {
        &&& -MAX_COORD <= self.x <= MAX_COORD
        &&& -MAX_COORD <= self.y <= MAX_COORD
        &&& -MAX_COORD <= self.z <= MAX_COORD
    }
}

/// Squared Euclidean distance between two points, as a mathematical
/// integer.  Opaque so that range scans reason about distances
/// abstractly; `distance_squared` computes it.
#[verifier::opaque]
pub open spec fn dist_sq(a: Position, b: Position) -> int {
    (a.x - b.x) * (a.x - b.x) + (a.y - b.y) * (a.y - b.y) + (a.z - b.z) * (a.z - b.z)
}

/// Squared Euclidean distance of two in-world points.
pub fn distance_squared(a: &Position, b: &Position) -> (d: u64)
    requires
        a.in_world(),
        b.in_world(),
    ensures
        d == dist_sq(*a, *b),
{
    let dx: i64 = a.x - b.x;
    let dy: i64 = a.y - b.y;
    let dz: i64 = a.z - b.z;
    proof {
        reveal(dist_sq);
        lemma_square_bound(dx as int);
        lemma_square_bound(dy as int);
        lemma_square_bound(dz as int);
    }
    (dx * dx) as u64 + (dy * dy) as u64 + (dz * dz) as u64
}

/// A coordinate difference of in-world points squares to at most
/// (2 * MAX_COORD)^2, which fits comfortably below a third of `u64::MAX`.
proof fn lemma_square_bound(d: int)
    requires
        -2 * MAX_COORD <= d <= 2 * MAX_COORD,
    ensures
        0 <= d * d <= 4_000_000_000_000_000_000,
{
    assert(0 <= d * d <= 4_000_000_000_000_000_000) by (nonlinear_arith)
        requires
            -2_000_000_000 <= d <= 2_000_000_000,
    ;
}

} // verus!
