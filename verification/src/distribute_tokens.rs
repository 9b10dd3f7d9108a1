//! The token distributor: converts a verified contributor's share of the
//! period's points into a token amount bounded by the reserve's
//! distributable pool, with floor rounding and a once-per-points claim
//! marker.
//!
//! The engine only computes the amount and keeps the books; moving the
//! tokens themselves is the host ledger's business.

use vstd::prelude::*;
use vstd::arithmetic::div_mod::{lemma_div_by_multiple, lemma_div_is_ordered};
use vstd::arithmetic::mul::{lemma_mul_inequality, lemma_mul_nonnegative, lemma_mul_upper_bound};
use crate::state::{BASIS_POINTS, Contributor, PointsConfig, RewardsError};

verus! {

/// The contributor's full entitlement for the current period: the
/// distributable pool, apportioned by the share of the period's points held
/// by the (lazily rolled-over) contributor, rounded down. Meaningful only
/// while `config.period_total_points > 0`.
pub open spec fn entitlement_of(c: Contributor, config: PointsConfig) -> int {
    config.pool() * c.rolled(config.current_period).current_month_points
        / (config.period_total_points as int)
}

/// Tokens already released to this contributor for the current period's
/// points; claims recorded under an earlier period do not count.
pub open spec fn already_claimed(c: Contributor, config: PointsConfig) -> int {
    if c.last_claim_period == config.current_period {
        c.period_claimed_tokens as int
    } else {
        0
    }
}

/// The tokens one `distribute` call releases: the entitlement not yet
/// claimed this period, clamped to what is left of the pool. A repeated
/// claim with unchanged points yields 0.
pub open spec fn tokens_of(c: Contributor, config: PointsConfig) -> int {
    let unclaimed = if entitlement_of(c, config) > already_claimed(c, config) {
        entitlement_of(c, config) - already_claimed(c, config)
    } else {
        0
    };
    if unclaimed <= config.remaining_pool() {
        unclaimed
    } else {
        config.remaining_pool()
    }
}

/// Whether committing the release would overflow a claim counter.
pub open spec fn distribute_overflows(c: Contributor, config: PointsConfig) -> bool {
    ||| c.tokens_claimed + tokens_of(c, config) > u64::MAX
    ||| already_claimed(c, config) + tokens_of(c, config) > u64::MAX
}

/// The state transition of one successful `distribute` call at time `now`
/// that released `tokens`: the contributor is rolled into the global period,
/// its claim bookkeeping advances by exactly the release, and the
/// configuration's released-this-period tally grows by the same amount.
/// Points and the reserve settings are untouched.
pub open spec fn distribute_step(
    c0: Contributor,
    c1: Contributor,
    g0: PointsConfig,
    g1: PointsConfig,
    tokens: u64,
    now: i64,
) -> bool {
    &&& c0.tokens_claimed + tokens <= u64::MAX
    &&& already_claimed(c0, g0) + tokens <= u64::MAX
    &&& c1 == (Contributor {
        tokens_claimed: (c0.tokens_claimed + tokens) as u64,
        last_claim_time: now,
        last_claim_period: g0.current_period,
        period_claimed_tokens: (already_claimed(c0, g0) + tokens) as u64,
        ..c0.rolled(g0.current_period)
    })
    &&& g0.distributed_this_period + tokens <= u64::MAX
    &&& g1 == (PointsConfig {
        distributed_this_period: (g0.distributed_this_period + tokens) as u64,
        ..g0
    })
}

/// The distributable pool never exceeds the reserve balance, since the
/// ratio is at most the full `BASIS_POINTS`.
pub proof fn lemma_pool_bounded(config: PointsConfig)
    requires
        config.reserve_ratio <= BASIS_POINTS,
    ensures
        0 <= config.pool() <= config.reserve_balance,
{
    let rb = config.reserve_balance as int;
    let ratio = config.reserve_ratio as int;
    let bp = BASIS_POINTS as int;
    lemma_mul_nonnegative(rb, ratio);
    lemma_mul_inequality(ratio, bp, rb);
    assert(rb * ratio == ratio * rb && rb * bp == bp * rb) by (nonlinear_arith);
    lemma_div_is_ordered(rb * ratio, rb * bp, bp);
    lemma_div_by_multiple(rb, bp);
    assert(config.pool() == (rb * ratio) / bp);
    assert((rb * ratio) / bp >= 0) by {
        vstd::arithmetic::div_mod::lemma_div_pos_is_pos(rb * ratio, bp);
    }
}

/// Release the tokens owed to a contributor for its current-period points.
///
/// Authorized, verified contributors with a non-empty period receive
/// `floor(pool * share)` minus what they already claimed this period,
/// clamped to what is left of the pool; the truncation remainder stays in
/// the reserve. Claiming again with unchanged points releases 0 and is not
/// an error. On any error both records are unchanged.
pub fn distribute(
    contributor: &mut Contributor,
    config: &mut PointsConfig,
    actor: u64,
    current_time: i64,
) -> (r: Result<u64, RewardsError>)
    requires
        old(contributor).wf(*old(config)),
        old(config).wf(),
    ensures
        final(contributor).wf(*final(config)),
        final(config).wf(),
        match r {
            Ok(tokens) => {
                &&& actor == old(contributor).authority
                &&& old(contributor).is_verified
                &&& old(config).period_total_points > 0
                &&& tokens == tokens_of(*old(contributor), *old(config))
                &&& distribute_step(
                    *old(contributor),
                    *final(contributor),
                    *old(config),
                    *final(config),
                    tokens,
                    current_time,
                )
            },
            Err(e) => {
                &&& *final(contributor) == *old(contributor)
                &&& *final(config) == *old(config)
                &&& e == (if actor != old(contributor).authority {
                    RewardsError::Unauthorized
                } else if !old(contributor).is_verified {
                    RewardsError::NotVerified
                } else if old(config).period_total_points == 0 {
                    RewardsError::EmptyPeriod
                } else {
                    RewardsError::ArithmeticOverflow
                })
            },
        },
        r is Ok <==> {
            &&& actor == old(contributor).authority
            &&& old(contributor).is_verified
            &&& old(config).period_total_points > 0
            &&& !distribute_overflows(*old(contributor), *old(config))
        },
        // Conservation: one call never releases more than what is left of
        // the pool, and the period tally never passes the pool.
        r is Ok ==> r->Ok_0 <= old(config).remaining_pool(),
        (r is Ok && old(config).distributed_this_period <= old(config).pool())
            ==> final(config).distributed_this_period <= final(config).pool(),
        // Lifetime claims never decrease.
        final(contributor).tokens_claimed >= old(contributor).tokens_claimed,
{
    if actor != contributor.authority {
        return Err(RewardsError::Unauthorized);
    }
    if !contributor.is_verified {
        return Err(RewardsError::NotVerified);
    }
    if config.period_total_points == 0 {
        return Err(RewardsError::EmptyPeriod);
    }

    proof {
        lemma_pool_bounded(*config);
    }

    // The distributable pool of the period, in token units.
    assert((config.reserve_balance as int) * (config.reserve_ratio as int)
        <= (u64::MAX as int) * (BASIS_POINTS as int)) by {
        lemma_mul_upper_bound(
            config.reserve_balance as int,
            u64::MAX as int,
            config.reserve_ratio as int,
            BASIS_POINTS as int,
        );
    }
    let pool: u128 = (config.reserve_balance as u128) * (config.reserve_ratio as u128)
        / (BASIS_POINTS as u128);
    assert(pool == config.pool());
    assert(pool <= u64::MAX as u128);

    // The rolled-over view of the contributor's period points.
    let stale: bool = contributor.current_period_marker != config.current_period;
    let month_points: u64 = if stale {
        0
    } else {
        contributor.current_month_points
    };

    // Full entitlement, floor-rounded; the widened intermediates cannot
    // overflow since the pool fits in a u64.
    assert(pool * (month_points as u128) <= (u64::MAX as int) * (u64::MAX as int)) by {
        lemma_mul_upper_bound(pool as int, u64::MAX as int, month_points as int, u64::MAX as int);
    }
    let entitlement: u128 = pool * (month_points as u128) / (config.period_total_points as u128);
    assert(entitlement == entitlement_of(*old(contributor), *old(config)));

    let already: u64 = if contributor.last_claim_period == config.current_period {
        contributor.period_claimed_tokens
    } else {
        0
    };
    let unclaimed: u128 = if entitlement > already as u128 {
        entitlement - already as u128
    } else {
        0
    };
    let remaining: u128 = if pool > config.distributed_this_period as u128 {
        pool - config.distributed_this_period as u128
    } else {
        0
    };
    let tokens128: u128 = if unclaimed <= remaining {
        unclaimed
    } else {
        remaining
    };
    assert(tokens128 == tokens_of(*old(contributor), *old(config)));
    let tokens: u64 = tokens128 as u64;

    if contributor.tokens_claimed > u64::MAX - tokens || already > u64::MAX - tokens {
        return Err(RewardsError::ArithmeticOverflow);
    }

    let base_type_dev: u64 = if stale { 0 } else { contributor.month_points_development };
    let base_type_rev: u64 = if stale { 0 } else { contributor.month_points_review };
    let base_type_doc: u64 = if stale { 0 } else { contributor.month_points_documentation };
    let base_type_com: u64 = if stale { 0 } else { contributor.month_points_community };

    contributor.current_period_marker = config.current_period;
    contributor.current_month_points = month_points;
    contributor.month_points_development = base_type_dev;
    contributor.month_points_review = base_type_rev;
    contributor.month_points_documentation = base_type_doc;
    contributor.month_points_community = base_type_com;
    contributor.tokens_claimed = contributor.tokens_claimed + tokens;
    contributor.last_claim_time = current_time;
    contributor.last_claim_period = config.current_period;
    contributor.period_claimed_tokens = already + tokens;
    config.distributed_this_period = config.distributed_this_period + tokens;

    proof {
        let rc = old(contributor).rolled(old(config).current_period);
        assert forall|u: crate::state::ContributionType|
            #[trigger] contributor.month_type_points(u) <= old(config).max_points_per_type by {
            assert(contributor.month_type_points(u) == rc.month_type_points(u));
            assert(old(contributor).month_type_points(u) <= old(config).max_points_per_type);
        }
    }

    Ok(tokens)
}

} // verus!
