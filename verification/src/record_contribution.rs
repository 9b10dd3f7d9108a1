//! The contribution recorder: validates one contribution event and converts
//! it into points under the per-type and the monthly cap, updating the
//! contributor and the global period aggregate atomically.

use vstd::prelude::*;
use crate::state::{ContributionType, Contributor, PointsConfig, RewardsError};
use crate::calculate_points::{calculate_points, capped_points};

verus! {

/// The points one contribution finally awards: the per-type-capped amount of
/// the calculator, clamped further to the contributor's remaining monthly
/// headroom. Evaluated on the lazily rolled-over contributor.
pub open spec fn award_of(
    c: Contributor,
    config: PointsConfig,
    t: ContributionType,
    magnitude: u64,
) -> int {
    let rc = c.rolled(config.current_period);
    let type_award = capped_points(t, magnitude, rc.month_type_points(t), config.max_points_per_type);
    let monthly_room: int = if rc.current_month_points >= config.monthly_threshold {
        0
    } else {
        config.monthly_threshold - rc.current_month_points
    };
    if type_award <= monthly_room {
        type_award
    } else {
        monthly_room
    }
}

/// Whether committing an award of `awarded` points would overflow one of the
/// fixed-width lifetime or global counters.
pub open spec fn record_overflows(c: Contributor, config: PointsConfig, awarded: int) -> bool {
    ||| c.total_points + awarded > u64::MAX
    ||| c.contribution_count + 1 > u64::MAX
    ||| config.period_total_points + awarded > u64::MAX
}

/// The state transition of one successful `record` call that awarded
/// `awarded` points of type `t`: the contributor is first rolled into the
/// global period, then all point counters grow by exactly the award, and the
/// global period total grows by the same amount. Claim bookkeeping and the
/// configuration's other fields are untouched.
pub open spec fn record_step(
    c0: Contributor,
    c1: Contributor,
    g0: PointsConfig,
    g1: PointsConfig,
    t: ContributionType,
    awarded: u64,
) -> bool {
    let rc = c0.rolled(g0.current_period);
    &&& c1.authority == c0.authority
    &&& c1.is_verified == c0.is_verified
    &&& c1.tokens_claimed == c0.tokens_claimed
    &&& c1.last_claim_time == c0.last_claim_time
    &&& c1.last_claim_period == c0.last_claim_period
    &&& c1.period_claimed_tokens == c0.period_claimed_tokens
    &&& c1.current_period_marker == g0.current_period
    &&& c1.total_points == c0.total_points + awarded
    &&& c1.current_month_points == rc.current_month_points + awarded
    &&& c1.contribution_count == c0.contribution_count + 1
    &&& c1.month_type_points(t) == rc.month_type_points(t) + awarded
    &&& (forall|u: ContributionType|
        u != t ==> #[trigger] c1.month_type_points(u) == rc.month_type_points(u))
    &&& g0.period_total_points + awarded <= u64::MAX
    &&& g1 == (PointsConfig {
        period_total_points: (g0.period_total_points + awarded) as u64,
        ..g0
    })
}

/// Record one contribution event.
///
/// On success the award is computed by [`award_of`]: the calculator's
/// per-type-capped points, clamped to the monthly headroom, applied to the
/// lazily rolled-over contributor. Hitting a cap degrades the award (down to
/// 0), it never fails the call. All mutation is all-or-nothing: on any error
/// both records are unchanged.
pub fn record(
    contributor: &mut Contributor,
    config: &mut PointsConfig,
    actor: u64,
    contribution_type: u8,
    magnitude: u64,
) -> (r: Result<u64, RewardsError>)
    requires
        old(contributor).wf(*old(config)),
    ensures
        final(contributor).wf(*final(config)),
        final(config).wf() == old(config).wf(),
        match r {
            Ok(awarded) => {
                let t = ContributionType::spec_of_code(contribution_type);
                &&& actor == old(contributor).authority
                &&& ContributionType::code_recognized(contribution_type)
                &&& awarded == award_of(*old(contributor), *old(config), t, magnitude)
                &&& record_step(*old(contributor), *final(contributor), *old(config), *final(config), t, awarded)
            },
            Err(e) => {
                &&& *final(contributor) == *old(contributor)
                &&& *final(config) == *old(config)
                &&& e == (if actor != old(contributor).authority {
                    RewardsError::Unauthorized
                } else if !ContributionType::code_recognized(contribution_type) {
                    RewardsError::InvalidContributionType
                } else {
                    RewardsError::ArithmeticOverflow
                })
            },
        },
        r is Ok <==> {
            let t = ContributionType::spec_of_code(contribution_type);
            &&& actor == old(contributor).authority
            &&& ContributionType::code_recognized(contribution_type)
            &&& !record_overflows(
                *old(contributor),
                *old(config),
                award_of(*old(contributor), *old(config), t, magnitude),
            )
        },
        // Monthly cap: after every successful call the period points stay
        // under the monthly threshold.
        r is Ok ==> final(contributor).current_month_points <= old(config).monthly_threshold,
        // Per-type cap: no type's period points ever exceed the per-type cap.
        r is Ok ==> forall|u: ContributionType|
            #[trigger] final(contributor).month_type_points(u) <= old(config).max_points_per_type,
        // Lazy rollover round-trip: a contributor still tagged with an old
        // period is reset first, so the new period counter is exactly the
        // fresh award.
        (r is Ok && old(contributor).current_period_marker != old(config).current_period)
            ==> final(contributor).current_month_points == r->Ok_0,
{
    if actor != contributor.authority {
        return Err(RewardsError::Unauthorized);
    }
    let t: ContributionType = match ContributionType::from_code(contribution_type) {
        Some(t) => t,
        None => {
            return Err(RewardsError::InvalidContributionType);
        },
    };

    // The rolled-over view of the period-scoped counters; committed only on
    // success so that failures leave the record untouched.
    let stale: bool = contributor.current_period_marker != config.current_period;
    let base_month: u64 = if stale {
        0
    } else {
        contributor.current_month_points
    };
    let base_type: u64 = if stale {
        0
    } else {
        contributor.month_points_for(t)
    };

    let type_award: u64 = calculate_points(t, magnitude, base_type, config.max_points_per_type);
    let monthly_room: u64 = if base_month >= config.monthly_threshold {
        0
    } else {
        config.monthly_threshold - base_month
    };
    let awarded: u64 = if type_award <= monthly_room {
        type_award
    } else {
        monthly_room
    };

    if contributor.total_points > u64::MAX - awarded
        || contributor.contribution_count == u64::MAX
        || config.period_total_points > u64::MAX - awarded
    {
        return Err(RewardsError::ArithmeticOverflow);
    }

    let mut month_dev: u64 = if stale { 0 } else { contributor.month_points_development };
    let mut month_rev: u64 = if stale { 0 } else { contributor.month_points_review };
    let mut month_doc: u64 = if stale { 0 } else { contributor.month_points_documentation };
    let mut month_com: u64 = if stale { 0 } else { contributor.month_points_community };
    match t {
        ContributionType::Development => {
            month_dev = month_dev + awarded;
        },
        ContributionType::Review => {
            month_rev = month_rev + awarded;
        },
        ContributionType::Documentation => {
            month_doc = month_doc + awarded;
        },
        ContributionType::Community => {
            month_com = month_com + awarded;
        },
    }

    contributor.total_points = contributor.total_points + awarded;
    contributor.current_month_points = base_month + awarded;
    contributor.contribution_count = contributor.contribution_count + 1;
    contributor.current_period_marker = config.current_period;
    contributor.month_points_development = month_dev;
    contributor.month_points_review = month_rev;
    contributor.month_points_documentation = month_doc;
    contributor.month_points_community = month_com;
    config.period_total_points = config.period_total_points + awarded;

    proof {
        let rc = old(contributor).rolled(old(config).current_period);
        assert forall|u: ContributionType| #[trigger] rc.month_type_points(u)
            <= old(config).max_points_per_type by {
            assert(old(contributor).month_type_points(u) <= old(config).max_points_per_type);
        }
        assert(contributor.month_type_points(t) == rc.month_type_points(t) + awarded);
        assert forall|u: ContributionType| #[trigger] contributor.month_type_points(u)
            <= old(config).max_points_per_type by {
            if u != t {
                assert(contributor.month_type_points(u) == rc.month_type_points(u));
            }
        }
    }

    Ok(awarded)
}

} // verus!
