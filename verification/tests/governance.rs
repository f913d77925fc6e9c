use mindone_coordinator::error::ApiError;
use mindone_coordinator::governance::{
    calculate_sla, contributor_distribution_available, contributor_rewards,
    privacy_gated_distribution, report_window, sla_transparency, DistributionValues,
    SlaOutcomeCounts, TransparencyMicroDistribution, NANOS_PER_DAY,
};

const VALUES: DistributionValues = DistributionValues {
    total_micro: 100,
    minimum_micro: Some(10),
    median_micro: Some(20),
    p90_micro: Some(40),
    maximum_micro: Some(50),
};

#[test]
fn privacy_gate_releases_all_statistics_together() {
    assert_eq!(
        privacy_gated_distribution(true, VALUES),
        TransparencyMicroDistribution {
            total_micro: Some(100),
            minimum_micro: Some(10),
            median_micro: Some(20),
            p90_micro: Some(40),
            maximum_micro: Some(50),
        }
    );
}

#[test]
fn privacy_gate_suppresses_all_statistics_together() {
    assert_eq!(
        privacy_gated_distribution(false, VALUES),
        TransparencyMicroDistribution::default()
    );
}

#[test]
fn sla_formula_excludes_only_audited_failed_jobs() {
    let calculated = calculate_sla(SlaOutcomeCounts {
        succeeded_jobs: 7,
        failed_jobs: 3,
        cancelled_jobs: 4,
        excluded_failed_jobs: 2,
    })
    .expect("合法计数应可计算");
    assert_eq!(calculated.total_terminal_jobs, 14);
    assert_eq!(calculated.included_denominator_jobs, 8);
    assert_eq!(calculated.success_rate_ppm, Some(875_000));
}

#[test]
fn sla_formula_rejects_impossible_exclusion_count() {
    assert!(calculate_sla(SlaOutcomeCounts {
        succeeded_jobs: 1,
        failed_jobs: 1,
        cancelled_jobs: 0,
        excluded_failed_jobs: 2,
    })
    .is_none());
}

#[test]
fn privacy_threshold_is_shared_and_inclusive_at_five_accounts() {
    assert!(!contributor_distribution_available(4));
    assert!(contributor_distribution_available(5));
}

#[test]
fn rates_need_something_to_rate() {
    let counts = |succeeded_jobs, failed_jobs, excluded_failed_jobs| SlaOutcomeCounts {
        succeeded_jobs,
        failed_jobs,
        cancelled_jobs: 0,
        excluded_failed_jobs,
    };
    assert_eq!(calculate_sla(counts(0, 0, 0)).expect("valid").success_rate_ppm, None);
    assert_eq!(calculate_sla(counts(0, 2, 2)).expect("valid").success_rate_ppm, None);
    assert_eq!(calculate_sla(counts(2, 1, 0)).expect("valid").success_rate_ppm, Some(666_666));
    assert!(calculate_sla(counts(-1, 1, 0)).is_none());
    assert!(calculate_sla(counts(i64::MAX, 1, 0)).is_none());
}

#[test]
fn reports_say_whether_the_target_is_met() {
    let report = |succeeded_jobs, failed_jobs| {
        sla_transparency(SlaOutcomeCounts {
            succeeded_jobs,
            failed_jobs,
            cancelled_jobs: 1,
            excluded_failed_jobs: 0,
        })
    };
    let met = report(995, 5).expect("valid");
    assert_eq!(met.effective_task_success_rate_ppm, Some(995_000));
    assert_eq!(met.target_met, Some(true));
    assert_eq!(met.total_terminal_jobs, 1_001);
    assert_eq!(report(994, 6).expect("valid").target_met, Some(false));
    assert_eq!(report(0, 0).expect("valid").target_met, None);
    assert_eq!(report(-1, 0).err(), Some(ApiError::Internal));
}

#[test]
fn rewards_of_few_accounts_are_not_told() {
    let few = contributor_rewards(4, VALUES, VALUES);
    assert!(!few.distribution_available);
    assert_eq!(few.contributing_accounts, 4);
    assert_eq!(few.spendable_quota, TransparencyMicroDistribution::default());
    assert_eq!(few.contribution_points, TransparencyMicroDistribution::default());
    let enough = contributor_rewards(5, VALUES, VALUES);
    assert_eq!(enough.spendable_quota.total_micro, Some(100));
}

#[test]
fn windows_are_counted_in_days() {
    let end = 1_700_000_000_000_000_000;
    assert_eq!(report_window(Some(None), end), Ok(end - 30 * NANOS_PER_DAY));
    assert_eq!(report_window(Some(Some(7)), end), Ok(end - 7 * NANOS_PER_DAY));
    assert!(report_window(Some(Some(0)), end).is_err());
    assert!(report_window(Some(Some(367)), end).is_err());
    assert!(report_window(None, end).is_err());
}
