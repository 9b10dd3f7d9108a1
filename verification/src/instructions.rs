//! Account setup: creating the configuration singleton and fresh
//! contributor records.
//!
//! The host allocates the accounts, checks signatures and supplies the
//! clock; these operations fill the freshly created records and hand back
//! the audit event to emit.

use vstd::prelude::*;
use crate::state::{BASIS_POINTS, Contributor, PointsConfig, RewardsError};

verus! {

/// The caller-chosen parameters of the configuration singleton.
#[derive(Clone, Copy, Debug, PartialEq, Eq, Structural)]
pub struct InitializeArgs {
    pub monthly_threshold: u64,
    pub reserve_ratio: u16,
    pub max_points_per_type: u64,
}

/// Audit event of a successful [`Initialize::process`].
#[derive(Clone, Copy, Debug, PartialEq, Eq, Structural)]
pub struct ProgramInitialized {
    pub authority: u64,
    pub monthly_threshold: u64,
    pub reserve_ratio: u16,
    pub max_points_per_type: u64,
    pub timestamp: i64,
}

/// Audit event of a successful [`CreateContributor::process`].
#[derive(Clone, Copy, Debug, PartialEq, Eq, Structural)]
pub struct ContributorCreated {
    pub authority: u64,
    pub contributor: u64,
    pub timestamp: i64,
}

/// The freshly allocated configuration account together with the signing
/// authority that will own it.
pub struct Initialize {
    pub points_config: PointsConfig,
    pub authority: u64,
}

/// The freshly allocated contributor account, its address, and the signing
/// authority that will own it.
pub struct CreateContributor {
    pub contributor: Contributor,
    pub authority: u64,
    pub contributor_address: u64,
}

impl Initialize {
    /// Fill the configuration singleton: the signer becomes the authority,
    /// the caps are taken from `args`, the period counter starts at 1 and
    /// every aggregate at 0. A ratio above `BASIS_POINTS` is rejected and
    /// leaves the account untouched.
    pub fn process(&mut self, args: InitializeArgs, now: i64) -> (r: Result<
        ProgramInitialized,
        RewardsError,
    >)
        ensures
            match r {
                Ok(event) => {
                    &&& args.reserve_ratio <= BASIS_POINTS
                    &&& final(self).points_config == (PointsConfig {
                        authority: old(self).authority,
                        monthly_threshold: args.monthly_threshold,
                        reserve_ratio: args.reserve_ratio,
                        max_points_per_type: args.max_points_per_type,
                        current_period: 1,
                        period_total_points: 0,
                        reserve_balance: 0,
                        distributed_this_period: 0,
                    })
                    &&& final(self).points_config.wf()
                    &&& event == (ProgramInitialized {
                        authority: old(self).authority,
                        monthly_threshold: args.monthly_threshold,
                        reserve_ratio: args.reserve_ratio,
                        max_points_per_type: args.max_points_per_type,
                        timestamp: now,
                    })
                },
                Err(e) => {
                    &&& *final(self) == *old(self)
                    &&& e == RewardsError::InvalidRatio
                },
            },
            r is Ok <==> args.reserve_ratio <= BASIS_POINTS,
            final(self).authority == old(self).authority,
    {
        if args.reserve_ratio as u64 > BASIS_POINTS {
            return Err(RewardsError::InvalidRatio);
        }
        self.points_config = PointsConfig {
            authority: self.authority,
            monthly_threshold: args.monthly_threshold,
            reserve_ratio: args.reserve_ratio,
            max_points_per_type: args.max_points_per_type,
            current_period: 1,
            period_total_points: 0,
            reserve_balance: 0,
            distributed_this_period: 0,
        };
        Ok(ProgramInitialized {
            authority: self.authority,
            monthly_threshold: args.monthly_threshold,
            reserve_ratio: args.reserve_ratio,
            max_points_per_type: args.max_points_per_type,
            timestamp: now,
        })
    }
}

impl CreateContributor {
    /// Fill a fresh contributor record: the signer becomes the owning
    /// authority, every counter starts at 0 and the record is unverified.
    /// The record is well-formed under any configuration whose period has
    /// started.
    pub fn process(&mut self, now: i64) -> (event: ContributorCreated)
        ensures
            final(self).contributor == (Contributor {
                authority: old(self).authority,
                total_points: 0,
                current_month_points: 0,
                tokens_claimed: 0,
                last_claim_time: 0,
                contribution_count: 0,
                is_verified: false,
                current_period_marker: 0,
                month_points_development: 0,
                month_points_review: 0,
                month_points_documentation: 0,
                month_points_community: 0,
                last_claim_period: 0,
                period_claimed_tokens: 0,
            }),
            forall|config: PointsConfig| config.current_period >= 1
                ==> #[trigger] final(self).contributor.wf(config),
            event == (ContributorCreated {
                authority: old(self).authority,
                contributor: old(self).contributor_address,
                timestamp: now,
            }),
            final(self).authority == old(self).authority,
            final(self).contributor_address == old(self).contributor_address,
    {
        self.contributor = Contributor {
            authority: self.authority,
            total_points: 0,
            current_month_points: 0,
            tokens_claimed: 0,
            last_claim_time: 0,
            contribution_count: 0,
            is_verified: false,
            current_period_marker: 0,
            month_points_development: 0,
            month_points_review: 0,
            month_points_documentation: 0,
            month_points_community: 0,
            last_claim_period: 0,
            period_claimed_tokens: 0,
        };
        ContributorCreated {
            authority: self.authority,
            contributor: self.contributor_address,
            timestamp: now,
        }
    }
}

} // verus!
