//! Points accrual and reserve-constrained token distribution engine.
//!
//! Contributions are converted into points under a per-type cap and a
//! per-period (monthly) cap, points aggregate per contributor and into a
//! global period total, periods roll over lazily per contributor, and a
//! contributor's accrued points entitle it to a floor-rounded share of the
//! distributable portion of a token reserve.

pub mod calculate_points;
pub mod distribute_tokens;
pub mod instructions;
pub mod laws;
pub mod manage_reserve;
pub mod record_contribution;
pub mod state;
pub mod update_reserve;

use vstd::prelude::*;

verus! {

} // verus!
