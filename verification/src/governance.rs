//! The public report on how the network is run: what contributors earn, how many jobs
//! succeed, and what is withheld so that no account can be singled out.

use vstd::prelude::*;

use crate::clock;
use crate::error::ApiError;

verus! {

pub const DEFAULT_WINDOW_DAYS: u16 = 30;

pub const MAX_WINDOW_DAYS: u16 = 366;

/// With fewer accounts than this, nothing is told about how amounts are distributed.
pub const CONTRIBUTOR_PRIVACY_THRESHOLD_ACCOUNTS: i64 = 5;

/// The success rate that is aimed at, in parts per million.
pub const SLA_TARGET_PPM: i32 = 995_000;

pub const NANOS_PER_DAY: i128 = 86_400_000_000_000;

/// How amounts are distributed over accounts.
#[derive(Clone, Copy, Debug, PartialEq, Eq, Structural)]
pub struct DistributionValues {
    pub total_micro: i64,
    pub minimum_micro: Option<i64>,
    pub median_micro: Option<i64>,
    pub p90_micro: Option<i64>,
    pub maximum_micro: Option<i64>,
}

/// What is told of a distribution.
#[derive(Clone, Copy, Debug, PartialEq, Eq, Structural)]
pub struct TransparencyMicroDistribution {
    pub total_micro: Option<i64>,
    pub minimum_micro: Option<i64>,
    pub median_micro: Option<i64>,
    pub p90_micro: Option<i64>,
    pub maximum_micro: Option<i64>,
}

impl Default for TransparencyMicroDistribution {
    /// Nothing is told.
    fn default() -> (told: Self)
        ensures
            told.total_micro is None,
            told.minimum_micro is None,
            told.median_micro is None,
            told.p90_micro is None,
            told.maximum_micro is None,
    {
        TransparencyMicroDistribution {
            total_micro: None,
            minimum_micro: None,
            median_micro: None,
            p90_micro: None,
            maximum_micro: None,
        }
    }
}

/// How jobs ended.
#[derive(Clone, Copy, Debug, PartialEq, Eq, Structural)]
pub struct SlaOutcomeCounts {
    pub succeeded_jobs: i64,
    pub failed_jobs: i64,
    pub cancelled_jobs: i64,
    pub excluded_failed_jobs: i64,
}

#[derive(Clone, Copy, Debug, PartialEq, Eq, Structural)]
pub struct CalculatedSla {
    pub total_terminal_jobs: i64,
    pub included_denominator_jobs: i64,
    pub success_rate_ppm: Option<i32>,
}

impl SlaOutcomeCounts {
    /// No count is negative, and no more failed jobs are left out than failed.
    pub open spec fn possible(self) -> bool {
        &&& 0 <= self.succeeded_jobs
        &&& 0 <= self.cancelled_jobs
        &&& 0 <= self.excluded_failed_jobs <= self.failed_jobs
    }

    pub open spec fn total(self) -> int {
        self.succeeded_jobs + self.failed_jobs + self.cancelled_jobs
    }

    /// The jobs that the rate is taken over: those that succeeded, and those that
    /// failed without being left out.
    pub open spec fn denominator(self) -> int {
        self.succeeded_jobs + self.failed_jobs - self.excluded_failed_jobs
    }
}

/// The jobs that succeeded, out of those that count, in parts per million rounded
/// down; nothing where no job counts.
pub open spec fn success_rate(counts: SlaOutcomeCounts) -> Option<int> {
    if counts.denominator() == 0 {
        None
    } else {
        Some(counts.succeeded_jobs * 1_000_000 / counts.denominator())
    }
}

proof fn lemma_rate_is_a_share(succeeded: int, denominator: int)
    requires
        0 <= succeeded <= denominator,
        0 < denominator,
    ensures
        0 <= succeeded * 1_000_000 / denominator <= 1_000_000,
{
    assert(succeeded * 1_000_000 <= denominator * 1_000_000);
    vstd::arithmetic::div_mod::lemma_div_is_ordered(
        succeeded * 1_000_000,
        1_000_000 * denominator,
        denominator,
    );
    vstd::arithmetic::div_mod::lemma_div_multiples_vanish(1_000_000, denominator);
    vstd::arithmetic::div_mod::lemma_div_pos_is_pos(succeeded * 1_000_000, denominator);
    assert(denominator * 1_000_000 == 1_000_000 * denominator);
}

/// Calculates the success rate. Counts that are not possible, or too large to be added
/// up, give none.
pub fn calculate_sla(counts: SlaOutcomeCounts) -> (calculated: Option<CalculatedSla>)
    ensures
        calculated is Some <==> counts.possible() && counts.total() <= i64::MAX,
        calculated matches Some(sla) ==> {
            &&& sla.total_terminal_jobs == counts.total()
            &&& sla.included_denominator_jobs == counts.denominator()
            &&& match success_rate(counts) {
                Some(rate) => sla.success_rate_ppm is Some && sla.success_rate_ppm->0 == rate,
                None => sla.success_rate_ppm is None,
            }
        },
{
    if counts.succeeded_jobs < 0 || counts.failed_jobs < 0 || counts.cancelled_jobs < 0
        || counts.excluded_failed_jobs < 0 || counts.excluded_failed_jobs > counts.failed_jobs {
        return None;
    }
    let total: i128 = counts.succeeded_jobs as i128 + counts.failed_jobs as i128
        + counts.cancelled_jobs as i128;
    if total > i64::MAX as i128 {
        return None;
    }
    let included_failed: i64 = counts.failed_jobs - counts.excluded_failed_jobs;
    let denominator: i64 = counts.succeeded_jobs + included_failed;
    let success_rate_ppm = if denominator == 0 {
        None
    } else {
        let rate: i128 = counts.succeeded_jobs as i128 * 1_000_000 / denominator as i128;
        proof {
            lemma_rate_is_a_share(counts.succeeded_jobs as int, denominator as int);
        }
        Some(rate as i32)
    };
    Some(
        CalculatedSla {
            total_terminal_jobs: total as i64,
            included_denominator_jobs: denominator,
            success_rate_ppm,
        },
    )
}

/// The rate is a share: never below nothing, never above all, and all exactly if no
/// failed job counts.
pub proof fn rates_are_shares(counts: SlaOutcomeCounts)
    requires
        counts.possible(),
        counts.denominator() > 0,
    ensures
        success_rate(counts) matches Some(rate) && 0 <= rate <= 1_000_000 && (rate == 1_000_000
            <==> counts.failed_jobs == counts.excluded_failed_jobs),
{
    let succeeded = counts.succeeded_jobs as int;
    let denominator = counts.denominator();
    lemma_rate_is_a_share(succeeded, denominator);
    vstd::arithmetic::div_mod::lemma_fundamental_div_mod(succeeded * 1_000_000, denominator);
    if succeeded == denominator {
        vstd::arithmetic::div_mod::lemma_div_multiples_vanish(1_000_000, denominator);
        assert(succeeded * 1_000_000 == 1_000_000 * denominator);
    } else {
        let rate = succeeded * 1_000_000 / denominator;
        assert(denominator * rate <= succeeded * 1_000_000);
        assert(rate != 1_000_000) by {
            if rate == 1_000_000 {
                assert(denominator * rate == denominator * 1_000_000);
            }
        }
    }
}

/// Leaving failed jobs out never lowers the rate, and cancelled jobs do not change it.
pub proof fn exclusions_never_lower_the_rate(counts: SlaOutcomeCounts, more: SlaOutcomeCounts)
    requires
        counts.possible(),
        more.possible(),
        more.succeeded_jobs == counts.succeeded_jobs,
        more.failed_jobs == counts.failed_jobs,
        more.excluded_failed_jobs >= counts.excluded_failed_jobs,
        more.denominator() > 0,
    ensures
        success_rate(counts)->0 <= success_rate(more)->0,
        more.excluded_failed_jobs == counts.excluded_failed_jobs ==> success_rate(counts)
            == success_rate(more),
{
    vstd::arithmetic::div_mod::lemma_div_is_ordered_by_denominator(
        counts.succeeded_jobs * 1_000_000,
        more.denominator(),
        counts.denominator(),
    );
}

/// Whether there are accounts enough to tell how amounts are distributed.
pub fn contributor_distribution_available(contributing_accounts: i64) -> (available: bool)
    ensures
        available == (contributing_accounts >= CONTRIBUTOR_PRIVACY_THRESHOLD_ACCOUNTS),
{
    contributing_accounts >= CONTRIBUTOR_PRIVACY_THRESHOLD_ACCOUNTS
}

/// What may be told of a distribution: all of it, or nothing.
pub open spec fn gated(available: bool, values: DistributionValues) -> TransparencyMicroDistribution {
    if available {
        TransparencyMicroDistribution {
            total_micro: Some(values.total_micro),
            minimum_micro: values.minimum_micro,
            median_micro: values.median_micro,
            p90_micro: values.p90_micro,
            maximum_micro: values.maximum_micro,
        }
    } else {
        TransparencyMicroDistribution {
            total_micro: None,
            minimum_micro: None,
            median_micro: None,
            p90_micro: None,
            maximum_micro: None,
        }
    }
}

pub fn privacy_gated_distribution(distribution_available: bool, values: DistributionValues) -> (told:
    TransparencyMicroDistribution)
    ensures
        told == gated(distribution_available, values),
{
    if distribution_available {
        TransparencyMicroDistribution {
            total_micro: Some(values.total_micro),
            minimum_micro: values.minimum_micro,
            median_micro: values.median_micro,
            p90_micro: values.p90_micro,
            maximum_micro: values.maximum_micro,
        }
    } else {
        TransparencyMicroDistribution::default()
    }
}

/// What contributors earned, as far as it is told.
pub struct ContributorRewardsTransparency {
    pub contributing_accounts: i64,
    pub privacy_threshold_accounts: i64,
    pub distribution_available: bool,
    pub spendable_quota: TransparencyMicroDistribution,
    pub contribution_points: TransparencyMicroDistribution,
}

/// Reports what contributors earned. One threshold decides over both distributions.
pub fn contributor_rewards(
    contributing_accounts: i64,
    spendable_quota: DistributionValues,
    contribution_points: DistributionValues,
) -> (rewards: ContributorRewardsTransparency)
    ensures
        rewards.contributing_accounts == contributing_accounts,
        rewards.privacy_threshold_accounts == CONTRIBUTOR_PRIVACY_THRESHOLD_ACCOUNTS,
        rewards.distribution_available == (contributing_accounts
            >= CONTRIBUTOR_PRIVACY_THRESHOLD_ACCOUNTS),
        rewards.spendable_quota == gated(rewards.distribution_available, spendable_quota),
        rewards.contribution_points == gated(rewards.distribution_available, contribution_points),
{
    let distribution_available = contributor_distribution_available(contributing_accounts);
    ContributorRewardsTransparency {
        contributing_accounts,
        privacy_threshold_accounts: CONTRIBUTOR_PRIVACY_THRESHOLD_ACCOUNTS,
        distribution_available,
        spendable_quota: privacy_gated_distribution(distribution_available, spendable_quota),
        contribution_points: privacy_gated_distribution(
            distribution_available,
            contribution_points,
        ),
    }
}

/// Below the threshold nothing is told that depends on the amounts: whatever they are,
/// the same is told.
pub proof fn small_groups_are_not_told_apart(first: DistributionValues, second: DistributionValues)
    ensures
        gated(false, first) == gated(false, second),
{
}

/// The start of the window of a report, or why the window is refused. A window that
/// is not a number counts as one that is out of range.
pub open spec fn window_start(window_days: Option<Option<u16>>, window_end: i128) -> Result<
    i128,
    ApiError,
> {
    let days = match window_days {
        None => 0,
        Some(None) => DEFAULT_WINDOW_DAYS as int,
        Some(Some(days)) => days as int,
    };
    if !(1 <= days <= MAX_WINDOW_DAYS) {
        Err(
            ApiError::bad_request("invalid_report_window", "window_days 必须是 1 到 366 之间的整数"),
        )
    } else if window_end - days * NANOS_PER_DAY < clock::MIN_MOMENT {
        Err(ApiError::internal())
    } else {
        Ok((window_end - days * NANOS_PER_DAY) as i128)
    }
}

/// Finds where the window of a report starts. `None` stands for a query that could not
/// be read, `Some(None)` for one that names no window.
pub fn report_window(window_days: Option<Option<u16>>, window_end: i128) -> (start: Result<
    i128,
    ApiError,
>)
    requires
        clock::is_moment(window_end),
    ensures
        start == window_start(window_days, window_end),
{
    let days: u16 = match window_days {
        None => 0,
        Some(None) => DEFAULT_WINDOW_DAYS,
        Some(Some(days)) => days,
    };
    if days < 1 || days > MAX_WINDOW_DAYS {
        return Err(
            ApiError::bad_request("invalid_report_window", "window_days 必须是 1 到 366 之间的整数"),
        );
    }
    let start: i128 = window_end - days as i128 * NANOS_PER_DAY;
    if start < clock::MIN_MOMENT {
        return Err(ApiError::internal());
    }
    Ok(start)
}

/// What is told about how jobs end.
pub struct SlaTransparency {
    pub effective_terminal_jobs: i64,
    pub total_terminal_jobs: i64,
    pub included_denominator_jobs: i64,
    pub effective_task_success_rate_ppm: Option<i32>,
    pub target_success_rate_ppm: i32,
    pub target_met: Option<bool>,
    pub observation_scope: &'static str,
}

/// Reports how jobs end, and whether the target is met.
pub fn sla_transparency(counts: SlaOutcomeCounts) -> (report: Result<SlaTransparency, ApiError>)
    ensures
        match report {
            Ok(report) => {
                &&& counts.possible() && counts.total() <= i64::MAX
                &&& report.total_terminal_jobs == counts.total()
                &&& report.included_denominator_jobs == counts.denominator()
                &&& report.effective_terminal_jobs == counts.denominator()
                &&& report.target_success_rate_ppm == SLA_TARGET_PPM
                &&& report.observation_scope@ == "accepted_jobs_audited_terminal_outcomes_v2"@
                &&& match success_rate(counts) {
                    Some(rate) => {
                        &&& report.effective_task_success_rate_ppm is Some
                        &&& report.effective_task_success_rate_ppm->0 == rate
                        &&& report.target_met == Some(rate >= SLA_TARGET_PPM)
                    },
                    None => {
                        &&& report.effective_task_success_rate_ppm is None
                        &&& report.target_met is None
                    },
                }
            },
            Err(refused) => {
                &&& refused == ApiError::internal()
                &&& !(counts.possible() && counts.total() <= i64::MAX)
            },
        },
        report matches Ok(report) ==> report.target_success_rate_ppm == 995_000,
{
    match calculate_sla(counts) {
        None => Err(ApiError::internal()),
        Some(calculated) => Ok(
            SlaTransparency {
                effective_terminal_jobs: calculated.included_denominator_jobs,
                total_terminal_jobs: calculated.total_terminal_jobs,
                included_denominator_jobs: calculated.included_denominator_jobs,
                effective_task_success_rate_ppm: calculated.success_rate_ppm,
                target_success_rate_ppm: SLA_TARGET_PPM,
                target_met: match calculated.success_rate_ppm {
                    Some(rate) => Some(rate >= SLA_TARGET_PPM),
                    None => None,
                },
                observation_scope: "accepted_jobs_audited_terminal_outcomes_v2",
            },
        ),
    }
}

/// The rate is the share of the jobs that succeeded in those that succeeded or failed, without
/// the failures that are left out: in millionths, rounded down. Cancelled jobs do not count.
pub proof fn rates_are_shares_of_what_counts(counts: SlaOutcomeCounts)
    requires
        counts.succeeded_jobs >= 0,
        counts.cancelled_jobs >= 0,
        0 <= counts.excluded_failed_jobs <= counts.failed_jobs,
    ensures
        counts.possible(),
        counts.total() == counts.succeeded_jobs + counts.failed_jobs + counts.cancelled_jobs,
        counts.denominator() == counts.succeeded_jobs + (counts.failed_jobs
            - counts.excluded_failed_jobs),
        success_rate(counts) is None <==> counts.succeeded_jobs == 0 && counts.failed_jobs
            == counts.excluded_failed_jobs,
        success_rate(counts) matches Some(rate) ==> {
            let counted = counts.succeeded_jobs + counts.failed_jobs - counts.excluded_failed_jobs;
            &&& rate * counted <= counts.succeeded_jobs * 1_000_000
            &&& counts.succeeded_jobs * 1_000_000 < (rate + 1) * counted
        },
{
    let counted = counts.denominator();
    if counted > 0 {
        let scaled = counts.succeeded_jobs * 1_000_000;
        let rate = scaled / counted;
        vstd::arithmetic::div_mod::lemma_fundamental_div_mod(scaled, counted);
        vstd::arithmetic::div_mod::lemma_mod_bound(scaled, counted);
        assert(rate * counted == counted * rate) by (nonlinear_arith);
        assert((rate + 1) * counted == rate * counted + counted) by (nonlinear_arith);
    }
}

/// Counts that cannot be are told from those that can.
pub proof fn impossible_counts_are_told(counts: SlaOutcomeCounts)
    ensures
        counts.succeeded_jobs < 0 || counts.cancelled_jobs < 0 || counts.excluded_failed_jobs < 0
            || counts.excluded_failed_jobs > counts.failed_jobs ==> !counts.possible(),
{
}

/// What may be told is told as it is.
pub proof fn open_distributions_are_told(values: DistributionValues)
    ensures
        gated(true, values) == (TransparencyMicroDistribution {
            total_micro: Some(values.total_micro),
            minimum_micro: values.minimum_micro,
            median_micro: values.median_micro,
            p90_micro: values.p90_micro,
            maximum_micro: values.maximum_micro,
        }),
        gated(false, values) == (TransparencyMicroDistribution {
            total_micro: None,
            minimum_micro: None,
            median_micro: None,
            p90_micro: None,
            maximum_micro: None,
        }),
{
}

/// A report covers the days that were asked for, 1 to 366 of them, or thirty if none were.
pub proof fn windows_cover_their_days(asked: Option<u16>, window_end: i128)
    requires
        clock::is_moment(window_end),
        window_end >= 0,
    ensures
        asked is None ==> (window_start(Some(asked), window_end) matches Ok(start) && window_end
            - start == 30 * 86_400_000_000_000),
        asked matches Some(days) ==> (1 <= days <= 366 ==> (window_start(Some(asked), window_end)
            matches Ok(start) && window_end - start == days * 86_400_000_000_000)),
        asked matches Some(days) ==> (days == 0 || days > 366 ==> (window_start(
            Some(asked),
            window_end,
        ) matches Err(refused) && refused is BadRequest)),
        window_start(None, window_end) is Err,
{
}

} // verus!
