//! Fixed-point world geometry.
//!
//! World positions are held in milli-units: one world unit is 1000 milli
//! units. Integer coordinates keep distance comparisons exact and provable;
//! the renderer converts to its own floating-point vectors at the edge.

use vstd::prelude::*;

verus! {

/// Coordinates are clamped to this many milli-units from the origin
/// (one million world units), so that squared distances stay well inside
/// the range of `i128`.
pub const POS_LIMIT: i64 = 1_000_000_000;

/// Activation radius of an interactable, in milli-units (1.0 world units).
pub const INTERACT_RADIUS_MILLI: i64 = 1_000;

/// A world position in milli-units.
#[derive(Debug, Clone, Copy, PartialEq, Eq, Structural)]
pub struct Pos3 {
    pub x: i64,
    pub y: i64,
    pub z: i64,
}

impl Pos3 {
    /// All coordinates within the world bounds.
    pub open spec fn wf(self) -> bool {
        -POS_LIMIT <= self.x <= POS_LIMIT
            && -POS_LIMIT <= self.y <= POS_LIMIT
            && -POS_LIMIT <= self.z <= POS_LIMIT
    }

    /// A position given in whole world units.
    pub fn from_units(x: i64, y: i64, z: i64) -> (r: Pos3)
        requires
            -1_000_000 <= x <= 1_000_000,
            -1_000_000 <= y <= 1_000_000,
            -1_000_000 <= z <= 1_000_000,
        ensures
            r == (Pos3 { x: (x * 1000) as i64, y: (y * 1000) as i64, z: (z * 1000) as i64 }),
            r.wf(),
    {
        Pos3 { x: x * 1000, y: y * 1000, z: z * 1000 }
    }
}

/// Squared distance between two positions, in squared milli-units.
pub open spec fn spec_dist_sq(a: Pos3, b: Pos3) -> int {
    (a.x - b.x) * (a.x - b.x) + (a.y - b.y) * (a.y - b.y) + (a.z - b.z) * (a.z - b.z)
}

/// Whether `b` lies strictly within the interactable activation radius of `a`.
pub open spec fn spec_within_radius(a: Pos3, b: Pos3) -> bool {
    spec_dist_sq(a, b) < INTERACT_RADIUS_MILLI * INTERACT_RADIUS_MILLI
}

/// Squared distance between two in-bounds positions.
pub fn dist_sq(a: &Pos3, b: &Pos3) -> (r: i128)
    requires
        a.wf(),
        b.wf(),
    ensures
        r == spec_dist_sq(*a, *b),
{
    let dx: i128 = a.x as i128 - b.x as i128;
    let dy: i128 = a.y as i128 - b.y as i128;
    let dz: i128 = a.z as i128 - b.z as i128;
    proof {
        assert(dx * dx <= 4_000_000_000_000_000_000 && dx * dx >= 0) by (nonlinear_arith)
            requires
                -2_000_000_000 <= dx <= 2_000_000_000,
        ;
        assert(dy * dy <= 4_000_000_000_000_000_000 && dy * dy >= 0) by (nonlinear_arith)
            requires
                -2_000_000_000 <= dy <= 2_000_000_000,
        ;
        assert(dz * dz <= 4_000_000_000_000_000_000 && dz * dz >= 0) by (nonlinear_arith)
            requires
                -2_000_000_000 <= dz <= 2_000_000_000,
        ;
    }
    dx * dx + dy * dy + dz * dz
}

/// Whether `b` lies strictly within the activation radius of `a`, exactly as
/// [`spec_within_radius`] states it.
pub fn within_radius(a: &Pos3, b: &Pos3) -> (r: bool)
    requires
        a.wf(),
        b.wf(),
    ensures
        r == spec_within_radius(*a, *b),
{
    proof {
        assert(INTERACT_RADIUS_MILLI * INTERACT_RADIUS_MILLI == 1_000_000);
    }
    dist_sq(a, b) < 1_000_000i128
}

} // verus!
