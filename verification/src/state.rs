//! Core account records and the error taxonomy of the engine.
//!
//! Identities (account authorities, account addresses) are opaque to the
//! engine: it only ever compares them for equality, so they are modelled as
//! plain `u64` ids supplied by the host.

use vstd::prelude::*;

verus! {

/// Basis-point denominator: a `reserve_ratio` of 10000 means the whole
/// reserve balance is distributable in one period.
pub const BASIS_POINTS: u64 = 10000;

/// The error taxonomy. Every failing operation returns one of these and
/// leaves all state unchanged.
#[derive(Clone, Copy, Debug, PartialEq, Eq, Structural)]
pub enum RewardsError {
    /// The acting identity does not own the account it tries to mutate.
    Unauthorized,
    /// The contribution type code maps to no recognized variant.
    InvalidContributionType,
    /// A reserve ratio above `BASIS_POINTS` was supplied.
    InvalidRatio,
    /// An unverified contributor attempted to claim tokens.
    NotVerified,
    /// A distribution was attempted while the period has no points at all.
    EmptyPeriod,
    /// A counter update would overflow its fixed-width field.
    ArithmeticOverflow,
}

/// The recognized contribution kinds. Each carries a fixed weight; the
/// points for one contribution are `weight * magnitude`, capped.
#[derive(Clone, Copy, Debug, PartialEq, Eq, Structural)]
pub enum ContributionType {
    Development,
    Review,
    Documentation,
    Community,
}

impl ContributionType {
    /// Fixed per-type weight of the points formula.
    pub open spec fn spec_weight(self) -> u64 {
        match self {
            ContributionType::Development => 10,
            ContributionType::Review => 5,
            ContributionType::Documentation => 3,
            ContributionType::Community => 2,
        }
    }

    /// Executable twin of [`Self::spec_weight`].
    pub fn weight(self) -> (w: u64)
        ensures
            w == self.spec_weight(),
            1 <= w <= 10,
    {
        match self {
            ContributionType::Development => 10,
            ContributionType::Review => 5,
            ContributionType::Documentation => 3,
            ContributionType::Community => 2,
        }
    }

    /// Which wire codes are recognized contribution types.
    pub open spec fn code_recognized(code: u8) -> bool {
        code == 0 || code == 1 || code == 2 || code == 3
    }

    /// The variant a recognized wire code denotes (unspecified beyond the
    /// recognized range; callers guard with [`Self::code_recognized`]).
    pub open spec fn spec_of_code(code: u8) -> ContributionType {
        if code == 0 {
            ContributionType::Development
        } else if code == 1 {
            ContributionType::Review
        } else if code == 2 {
            ContributionType::Documentation
        } else {
            ContributionType::Community
        }
    }

    /// Decode a wire code; `None` exactly on unrecognized codes.
    pub fn from_code(code: u8) -> (r: Option<ContributionType>)
        ensures
            r is Some <==> Self::code_recognized(code),
            Self::code_recognized(code) ==> r == Some(Self::spec_of_code(code)),
    {
        match code {
            0 => Some(ContributionType::Development),
            1 => Some(ContributionType::Review),
            2 => Some(ContributionType::Documentation),
            3 => Some(ContributionType::Community),
            _ => None,
        }
    }
}

/// Global singleton configuration and period-aggregate state.
#[derive(Clone, Copy, Debug, PartialEq, Eq, Structural)]
pub struct PointsConfig {
    /// Identity permitted to perform administrative operations.
    pub authority: u64,
    /// Maximum points one contributor may accrue within one period.
    pub monthly_threshold: u64,
    /// Basis-point fraction of the reserve balance distributable per period.
    pub reserve_ratio: u16,
    /// Ceiling on points from any single contribution type, per contributor
    /// per period.
    pub max_points_per_type: u64,
    /// Monotonically increasing period counter; starts at 1.
    pub current_period: u64,
    /// Sum of points awarded to all contributors in the current period.
    pub period_total_points: u64,
    /// Token units held by the reserve.
    pub reserve_balance: u64,
    /// Token units already released in the current period.
    pub distributed_this_period: u64,
}

impl PointsConfig {
    /// Well-formedness of the configuration record.
    pub open spec fn wf(self) -> bool {
        &&& self.reserve_ratio <= BASIS_POINTS
        &&& self.current_period >= 1
    }

    /// The distributable pool of the current period:
    /// `reserve_balance * reserve_ratio / 10000`, rounded down.
    pub open spec fn pool(self) -> int {
        (self.reserve_balance * self.reserve_ratio) / (BASIS_POINTS as int)
    }

    /// Pool units not yet released in the current period.
    pub open spec fn remaining_pool(self) -> int {
        if self.pool() > self.distributed_this_period {
            self.pool() - self.distributed_this_period
        } else {
            0
        }
    }
}

/// Per-participant account: lifetime and period-scoped point counters plus
/// claim bookkeeping.
#[derive(Clone, Copy, Debug, PartialEq, Eq, Structural)]
pub struct Contributor {
    /// Owning identity; only it may record or claim for this account.
    pub authority: u64,
    /// Lifetime accrued points; never decreases.
    pub total_points: u64,
    /// Points accrued in the period `current_period_marker`.
    pub current_month_points: u64,
    /// Lifetime tokens released to this contributor; never decreases.
    pub tokens_claimed: u64,
    /// Timestamp of the most recent successful claim.
    pub last_claim_time: i64,
    /// Lifetime count of accepted contribution events.
    pub contribution_count: u64,
    /// Unverified contributors accrue points but may not claim.
    pub is_verified: bool,
    /// The period the period-scoped counters belong to; brought up to the
    /// global period lazily, on the first touch after a rollover.
    pub current_period_marker: u64,
    /// Period points from `Development` contributions.
    pub month_points_development: u64,
    /// Period points from `Review` contributions.
    pub month_points_review: u64,
    /// Period points from `Documentation` contributions.
    pub month_points_documentation: u64,
    /// Period points from `Community` contributions.
    pub month_points_community: u64,
    /// The period of the most recent successful claim.
    pub last_claim_period: u64,
    /// Tokens already released for the points of `last_claim_period`.
    pub period_claimed_tokens: u64,
}

impl Contributor {
    /// The period points accrued from one contribution type.
    pub open spec fn month_type_points(self, t: ContributionType) -> u64 {
        match t {
            ContributionType::Development => self.month_points_development,
            ContributionType::Review => self.month_points_review,
            ContributionType::Documentation => self.month_points_documentation,
            ContributionType::Community => self.month_points_community,
        }
    }

    /// Executable twin of [`Self::month_type_points`].
    pub fn month_points_for(&self, t: ContributionType) -> (p: u64)
        ensures
            p == self.month_type_points(t),
    {
        match t {
            ContributionType::Development => self.month_points_development,
            ContributionType::Review => self.month_points_review,
            ContributionType::Documentation => self.month_points_documentation,
            ContributionType::Community => self.month_points_community,
        }
    }

    /// Well-formedness of a contributor record against the configuration it
    /// lives under: period counters respect the caps, the lifetime total
    /// covers the period total, and the marker never runs ahead of the
    /// global period.
    pub open spec fn wf(self, config: PointsConfig) -> bool {
        &&& self.current_period_marker <= config.current_period
        &&& self.current_month_points <= self.total_points
        &&& self.current_month_points <= config.monthly_threshold
        &&& (forall|t: ContributionType|
            #[trigger] self.month_type_points(t) <= config.max_points_per_type)
    }

    /// The contributor as the engine sees it under the global period
    /// `period`: if the record was last touched in an earlier period, its
    /// period-scoped point counters read as zero (the lazy rollover).
    pub open spec fn rolled(self, period: u64) -> Contributor {
        if self.current_period_marker == period {
            self
        } else {
            Contributor {
                current_period_marker: period,
                current_month_points: 0,
                month_points_development: 0,
                month_points_review: 0,
                month_points_documentation: 0,
                month_points_community: 0,
                ..self
            }
        }
    }
}

} // verus!
