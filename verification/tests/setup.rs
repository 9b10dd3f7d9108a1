use aixblock_rewards::instructions::{
    ContributorCreated, CreateContributor, Initialize, InitializeArgs, ProgramInitialized,
};
use aixblock_rewards::record_contribution::record;
use aixblock_rewards::state::{Contributor, PointsConfig, RewardsError};

const ADMIN: u64 = 11;
const ALICE: u64 = 12;

fn blank_config() -> PointsConfig {
    PointsConfig {
        authority: 0,
        monthly_threshold: 0,
        reserve_ratio: 0,
        max_points_per_type: 0,
        current_period: 0,
        period_total_points: 0,
        reserve_balance: 0,
        distributed_this_period: 0,
    }
}

fn blank_contributor() -> Contributor {
    Contributor {
        authority: 0,
        total_points: 0,
        current_month_points: 0,
        tokens_claimed: 0,
        last_claim_time: 0,
        contribution_count: 0,
        is_verified: false,
        current_period_marker: 0,
        month_points_development: 0,
        month_points_review: 0,
        month_points_documentation: 0,
        month_points_community: 0,
        last_claim_period: 0,
        period_claimed_tokens: 0,
    }
}

#[test]
fn initialize_fills_config_and_reports() {
    let mut ctx = Initialize { points_config: blank_config(), authority: ADMIN };
    let args = InitializeArgs { monthly_threshold: 1000, reserve_ratio: 5000, max_points_per_type: 400 };
    let event = ctx.process(args, 42).unwrap();
    assert_eq!(ctx.points_config.authority, ADMIN);
    assert_eq!(ctx.points_config.monthly_threshold, 1000);
    assert_eq!(ctx.points_config.reserve_ratio, 5000);
    assert_eq!(ctx.points_config.max_points_per_type, 400);
    assert_eq!(ctx.points_config.current_period, 1);
    assert_eq!(ctx.points_config.period_total_points, 0);
    assert_eq!(ctx.points_config.reserve_balance, 0);
    assert_eq!(ctx.points_config.distributed_this_period, 0);
    assert_eq!(
        event,
        ProgramInitialized {
            authority: ADMIN,
            monthly_threshold: 1000,
            reserve_ratio: 5000,
            max_points_per_type: 400,
            timestamp: 42,
        }
    );
}

#[test]
fn initialize_rejects_ratio_above_basis_points() {
    let mut ctx = Initialize { points_config: blank_config(), authority: ADMIN };
    let args = InitializeArgs { monthly_threshold: 1, reserve_ratio: 10001, max_points_per_type: 1 };
    assert_eq!(ctx.process(args, 42), Err(RewardsError::InvalidRatio));
    assert_eq!(ctx.points_config, blank_config());
}

#[test]
fn create_contributor_zeroes_everything() {
    let mut ctx = CreateContributor {
        contributor: blank_contributor(),
        authority: ALICE,
        contributor_address: 99,
    };
    let event = ctx.process(7);
    let c = ctx.contributor;
    assert_eq!(c.authority, ALICE);
    assert_eq!(c.total_points, 0);
    assert_eq!(c.current_month_points, 0);
    assert_eq!(c.tokens_claimed, 0);
    assert_eq!(c.last_claim_time, 0);
    assert_eq!(c.contribution_count, 0);
    assert!(!c.is_verified);
    assert_eq!(event, ContributorCreated { authority: ALICE, contributor: 99, timestamp: 7 });
}

#[test]
fn fresh_contributor_is_rolled_into_the_current_period() {
    // a record created before any rollover carries marker 0 and is lazily
    // brought into period 1 by its first contribution
    let mut init = Initialize { points_config: blank_config(), authority: ADMIN };
    let args = InitializeArgs { monthly_threshold: 1000, reserve_ratio: 5000, max_points_per_type: 400 };
    init.process(args, 1).unwrap();
    let mut g = init.points_config;
    let mut ctx = CreateContributor {
        contributor: blank_contributor(),
        authority: ALICE,
        contributor_address: 5,
    };
    ctx.process(2);
    let mut a = ctx.contributor;
    assert_eq!(record(&mut a, &mut g, ALICE, 2, 10), Ok(30));
    assert_eq!(a.current_period_marker, 1);
    assert_eq!(a.current_month_points, 30);
    assert_eq!(g.period_total_points, 30);
}
