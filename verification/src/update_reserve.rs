//! The reserve manager: authority-only adjustment of the distributable
//! ratio and top-ups of the reserve balance.

use vstd::prelude::*;
use crate::state::{BASIS_POINTS, PointsConfig, RewardsError};

verus! {

/// The state transition of one successful `update_reserve` call: the ratio
/// is replaced and the top-up is added to the reserve balance; everything
/// else is untouched.
pub open spec fn update_reserve_step(
    g0: PointsConfig,
    g1: PointsConfig,
    new_ratio: u16,
    top_up: u64,
) -> bool {
    &&& g0.reserve_balance + top_up <= u64::MAX
    &&& g1 == (PointsConfig {
        reserve_ratio: new_ratio,
        reserve_balance: (g0.reserve_balance + top_up) as u64,
        ..g0
    })
}

/// Replace the reserve ratio and top the reserve balance up.
///
/// Permitted only to the configuration's authority; a ratio above
/// `BASIS_POINTS` is rejected as `InvalidRatio`, a balance overflow as
/// `ArithmeticOverflow`, and on any error the configuration is unchanged.
pub fn update_reserve(
    config: &mut PointsConfig,
    actor: u64,
    new_ratio: u16,
    top_up: u64,
) -> (r: Result<(), RewardsError>)
    requires
        old(config).wf(),
    ensures
        final(config).wf(),
        match r {
            Ok(()) => update_reserve_step(*old(config), *final(config), new_ratio, top_up),
            Err(e) => {
                &&& *final(config) == *old(config)
                &&& e == (if actor != old(config).authority {
                    RewardsError::Unauthorized
                } else if new_ratio > BASIS_POINTS {
                    RewardsError::InvalidRatio
                } else {
                    RewardsError::ArithmeticOverflow
                })
            },
        },
        r is Ok <==> {
            &&& actor == old(config).authority
            &&& new_ratio <= BASIS_POINTS
            &&& old(config).reserve_balance + top_up <= u64::MAX
        },
{
    if actor != config.authority {
        return Err(RewardsError::Unauthorized);
    }
    if new_ratio as u64 > BASIS_POINTS {
        return Err(RewardsError::InvalidRatio);
    }
    if config.reserve_balance > u64::MAX - top_up {
        return Err(RewardsError::ArithmeticOverflow);
    }
    config.reserve_ratio = new_ratio;
    config.reserve_balance = config.reserve_balance + top_up;
    Ok(())
}

} // verus!
