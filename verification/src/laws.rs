//! System-wide laws of the engine, stated over a snapshot of all
//! contributor records and proved from the per-operation transition
//! predicates.

use vstd::prelude::*;
use crate::state::{ContributionType, Contributor, PointsConfig};
use crate::record_contribution::record_step;
use crate::manage_reserve::advance_step;
use crate::distribute_tokens::{distribute_step, tokens_of};

verus! {

/// What one contributor record contributes to the period `period`: its
/// period points if the record is tagged with that period, else 0 (its
/// points belong to an earlier period and await the lazy rollover).
pub open spec fn month_contribution(c: Contributor, period: u64) -> int {
    if c.current_period_marker == period {
        c.current_month_points as int
    } else {
        0
    }
}

/// The sum over a snapshot of all contributor records of their points in
/// the period `period`.
pub open spec fn sum_month_points(cs: Seq<Contributor>, period: u64) -> int
    decreases cs.len(),
{
    if cs.len() == 0 {
        0
    } else {
        sum_month_points(cs.drop_last(), period) + month_contribution(cs.last(), period)
    }
}

/// Replacing one record changes the sum by exactly the difference of that
/// record's contribution.
pub proof fn lemma_sum_update(cs: Seq<Contributor>, i: int, c: Contributor, period: u64)
    requires
        0 <= i < cs.len(),
    ensures
        sum_month_points(cs.update(i, c), period) == sum_month_points(cs, period)
            - month_contribution(cs[i], period) + month_contribution(c, period),
    decreases cs.len(),
{
    let updated = cs.update(i, c);
    if i == cs.len() - 1 {
        assert(updated.drop_last() =~= cs.drop_last());
    } else {
        assert(updated.drop_last() =~= cs.drop_last().update(i, c));
        assert(updated.last() == cs.last());
        lemma_sum_update(cs.drop_last(), i, c, period);
    }
}

/// A period no record is tagged with sums to 0.
pub proof fn lemma_sum_zero_when_all_stale(cs: Seq<Contributor>, period: u64)
    requires
        forall|j: int| 0 <= j < cs.len() ==> (#[trigger] cs[j]).current_period_marker != period,
    ensures
        sum_month_points(cs, period) == 0,
    decreases cs.len(),
{
    if cs.len() > 0 {
        assert(forall|j: int| 0 <= j < cs.drop_last().len()
            ==> (#[trigger] cs.drop_last()[j]).current_period_marker != period);
        lemma_sum_zero_when_all_stale(cs.drop_last(), period);
        assert(cs.last() == cs[cs.len() - 1]);
    }
}

/// The global period total stays the sum of all contributors' period
/// points across a `record` call: if the configuration's
/// `period_total_points` equals the snapshot sum before the call, it equals
/// the sum of the snapshot with the touched record replaced after it.
pub proof fn lemma_record_preserves_period_sum(
    cs: Seq<Contributor>,
    i: int,
    c1: Contributor,
    g0: PointsConfig,
    g1: PointsConfig,
    t: ContributionType,
    awarded: u64,
)
    requires
        0 <= i < cs.len(),
        record_step(cs[i], c1, g0, g1, t, awarded),
        g0.period_total_points == sum_month_points(cs, g0.current_period),
    ensures
        g1.current_period == g0.current_period,
        g1.period_total_points == sum_month_points(cs.update(i, c1), g1.current_period),
{
    lemma_sum_update(cs, i, c1, g0.current_period);
    assert(month_contribution(cs[i], g0.current_period)
        == cs[i].rolled(g0.current_period).current_month_points);
    assert(month_contribution(c1, g0.current_period)
        == cs[i].rolled(g0.current_period).current_month_points + awarded);
}

/// The global period total stays the sum across a `distribute` call, which
/// moves no points: replacing the touched record leaves the sum at the
/// unchanged `period_total_points`.
pub proof fn lemma_distribute_preserves_period_sum(
    cs: Seq<Contributor>,
    i: int,
    c1: Contributor,
    g0: PointsConfig,
    g1: PointsConfig,
    tokens: u64,
    now: i64,
)
    requires
        0 <= i < cs.len(),
        distribute_step(cs[i], c1, g0, g1, tokens, now),
        g0.period_total_points == sum_month_points(cs, g0.current_period),
    ensures
        g1.current_period == g0.current_period,
        g1.period_total_points == sum_month_points(cs.update(i, c1), g1.current_period),
{
    lemma_sum_update(cs, i, c1, g0.current_period);
    assert(month_contribution(cs[i], g0.current_period)
        == cs[i].rolled(g0.current_period).current_month_points);
    assert(month_contribution(c1, g0.current_period)
        == cs[i].rolled(g0.current_period).current_month_points);
}

/// The global period total stays the sum across an `advance_period` call:
/// the new period's sum over any snapshot of records tagged no later than
/// the old period is 0, matching the reset `period_total_points`.
pub proof fn lemma_advance_resets_period_sum(
    cs: Seq<Contributor>,
    g0: PointsConfig,
    g1: PointsConfig,
)
    requires
        advance_step(g0, g1),
        forall|j: int| 0 <= j < cs.len()
            ==> (#[trigger] cs[j]).current_period_marker <= g0.current_period,
    ensures
        g1.period_total_points == 0,
        sum_month_points(cs, g1.current_period) == 0,
{
    assert(forall|j: int| 0 <= j < cs.len()
        ==> (#[trigger] cs[j]).current_period_marker != g1.current_period);
    lemma_sum_zero_when_all_stale(cs, g1.current_period);
}

/// Distribution conservation: each release adds exactly its token amount to
/// the period's released tally, and the tally never passes the period's
/// distributable pool, which the release leaves unchanged. Over any
/// sequence of claims in one period the total released therefore stays
/// within `reserve_balance * reserve_ratio / 10000`.
pub proof fn lemma_distribution_conserved(
    c0: Contributor,
    c1: Contributor,
    g0: PointsConfig,
    g1: PointsConfig,
    tokens: u64,
    now: i64,
)
    requires
        distribute_step(c0, c1, g0, g1, tokens, now),
        tokens == tokens_of(c0, g0),
        g0.distributed_this_period <= g0.pool(),
    ensures
        g1.pool() == g0.pool(),
        g1.distributed_this_period == g0.distributed_this_period + tokens,
        g1.distributed_this_period <= g1.pool(),
{
}

/// Claim idempotence: immediately after a successful claim, a second claim
/// by the same contributor with no new points is owed 0 tokens.
pub proof fn lemma_distribute_idempotent(
    c0: Contributor,
    c1: Contributor,
    g0: PointsConfig,
    g1: PointsConfig,
    tokens: u64,
    now: i64,
)
    requires
        distribute_step(c0, c1, g0, g1, tokens, now),
        tokens == tokens_of(c0, g0),
        g0.period_total_points > 0,
    ensures
        tokens_of(c1, g1) == 0,
{
    assert(c1.rolled(g1.current_period) == c1);
    assert(c1.rolled(g1.current_period).current_month_points
        == c0.rolled(g0.current_period).current_month_points);
    assert(g1.pool() == g0.pool());
}

} // verus!
