//! The period manager: rolls the global period forward and resets the
//! period-scoped aggregates.
//!
//! Rollover is caller-triggered and authority-only; individual contributors
//! are not swept eagerly — their period counters are reset lazily by the
//! recorder and the distributor on first touch after a rollover.

use vstd::prelude::*;
use crate::state::{PointsConfig, RewardsError};

verus! {

/// The state transition of one successful `advance_period` call: the period
/// counter steps by one and both period aggregates reset; everything else is
/// untouched.
pub open spec fn advance_step(g0: PointsConfig, g1: PointsConfig) -> bool {
    &&& g0.current_period + 1 <= u64::MAX
    &&& g1 == (PointsConfig {
        current_period: (g0.current_period + 1) as u64,
        period_total_points: 0,
        distributed_this_period: 0,
        ..g0
    })
}

/// Advance the global period by one.
///
/// Permitted only to the configuration's authority. Resets the global
/// period point total and the released-this-period tally to 0; contributor
/// records are left to the lazy per-contributor rollover.
pub fn advance_period(config: &mut PointsConfig, actor: u64) -> (r: Result<(), RewardsError>)
    ensures
        old(config).wf() ==> final(config).wf(),
        match r {
            Ok(()) => advance_step(*old(config), *final(config)),
            Err(e) => {
                &&& *final(config) == *old(config)
                &&& e == (if actor != old(config).authority {
                    RewardsError::Unauthorized
                } else {
                    RewardsError::ArithmeticOverflow
                })
            },
        },
        r is Ok <==> actor == old(config).authority && old(config).current_period < u64::MAX,
        // The period counter never decreases.
        final(config).current_period >= old(config).current_period,
{
    if actor != config.authority {
        return Err(RewardsError::Unauthorized);
    }
    if config.current_period == u64::MAX {
        return Err(RewardsError::ArithmeticOverflow);
    }
    config.current_period = config.current_period + 1;
    config.period_total_points = 0;
    config.distributed_this_period = 0;
    Ok(())
}

} // verus!
