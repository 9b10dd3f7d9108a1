//! The points calculator: the pure formula mapping one contribution to a
//! point award under the per-type cap.

use vstd::prelude::*;
use crate::state::ContributionType;

verus! {

/// The uncapped points of one contribution: fixed per-type weight times
/// magnitude. Total, monotonic in `magnitude`, no fractional loss.
pub open spec fn base_points(t: ContributionType, magnitude: u64) -> int {
    t.spec_weight() * magnitude
}

/// The per-type-capped award: the base points, clamped so that
/// `per_type_points_so_far + award <= max_points_per_type`. Once the cap is
/// reached the award is 0 — capping degrades the amount, never the outcome.
pub open spec fn capped_points(
    t: ContributionType,
    magnitude: u64,
    per_type_points_so_far: u64,
    max_points_per_type: u64,
) -> int {
    if per_type_points_so_far >= max_points_per_type {
        0
    } else if base_points(t, magnitude) <= max_points_per_type - per_type_points_so_far {
        base_points(t, magnitude)
    } else {
        max_points_per_type - per_type_points_so_far
    }
}

/// Compute the per-type-capped point award of one contribution.
///
/// Side-effect-free; all state mutation happens in the recorder.
pub fn calculate_points(
    t: ContributionType,
    magnitude: u64,
    per_type_points_so_far: u64,
    max_points_per_type: u64,
) -> (award: u64)
    ensures
        award == capped_points(t, magnitude, per_type_points_so_far, max_points_per_type),
        per_type_points_so_far < max_points_per_type
            ==> per_type_points_so_far + award <= max_points_per_type,
{
    if per_type_points_so_far >= max_points_per_type {
        return 0;
    }
    let headroom: u64 = max_points_per_type - per_type_points_so_far;
    let w: u64 = t.weight();
    assert((w as int) * (magnitude as int) <= 10 * (u64::MAX as int)) by (nonlinear_arith)
        requires
            w <= 10,
            magnitude <= u64::MAX,
    ;
    let base: u128 = (w as u128) * (magnitude as u128);
    if base <= headroom as u128 {
        base as u64
    } else {
        headroom
    }
}

} // verus!
