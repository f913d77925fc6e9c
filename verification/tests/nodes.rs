use std::collections::BTreeMap;

use mindone_coordinator::error::ApiError;
use mindone_coordinator::honor::{
    check_contribution, contribution_midrank, contribution_milestones, count_long_streaks,
    daily_failures, network_honor_leaderboard, network_zero_failure_100_days_nodes,
    published_cohort, push_quantized_honor_entry, streaks_by_node, top_ranked_nodes,
    zero_failure_100_days_nodes, zero_failure_streak, NetworkHonorLabel,
    NetworkHonorLeaderboardEntry, NodeDay,
};
use mindone_coordinator::ids::Uuid;
use mindone_coordinator::nodes::{
    authorize_node_stats, check_published, check_registration, check_test_profile, listed_names,
    node_heartbeat, parse_db_trust_level, paused_for_temperature, software_trust_level, speed_variants,
    sql_policy_values, test_profile_fingerprint, trust_level_db, unpublished_status,
    validate_alias, validate_publish, validate_tags, HardwareProfile, Heartbeat, ModelListQuery,
    NodeActivity, NodeLimits, PauseReason, PublishModelRequest, SandboxMechanism, TrustLevel,
};

fn profile(operating_system: &str, mechanisms: Vec<SandboxMechanism>) -> HardwareProfile {
    HardwareProfile {
        operating_system: operating_system.to_owned(),
        sandbox_mechanisms: mechanisms,
    }
}

fn percentile(
    cohort_nodes: i64,
    lower_nodes: i64,
    tied_nodes: i64,
    target_present: bool,
) -> Result<Option<f64>, ApiError> {
    contribution_midrank(cohort_nodes, lower_nodes, tied_nodes, target_present).map(|rank| {
        rank.map(|rank| rank.twice_numerator as f64 / rank.twice_denominator as f64)
    })
}

#[test]
fn software_trust_matrix_is_strict_and_deterministic() {
    assert_eq!(
        software_trust_level(&profile("macOS", vec![SandboxMechanism::Seatbelt])),
        TrustLevel::StandardLimited
    );
    assert_eq!(
        software_trust_level(&profile("macos", Vec::new())),
        TrustLevel::Unverified
    );
    assert_eq!(
        software_trust_level(&profile(
            "linux",
            vec![
                SandboxMechanism::Namespaces,
                SandboxMechanism::SeccompBpf,
                SandboxMechanism::Landlock,
            ],
        )),
        TrustLevel::Standard
    );
    assert_eq!(
        software_trust_level(&profile(
            "linux",
            vec![SandboxMechanism::Namespaces, SandboxMechanism::SeccompBpf],
        )),
        TrustLevel::StandardLimited
    );
    assert_eq!(
        software_trust_level(&profile("linux", vec![SandboxMechanism::AppArmor])),
        TrustLevel::Unverified
    );
    assert_eq!(
        software_trust_level(&profile("windows", vec![SandboxMechanism::JobObjects],)),
        TrustLevel::Experimental
    );
    assert_eq!(
        software_trust_level(&profile("windows", Vec::new())),
        TrustLevel::Unverified
    );
    assert_eq!(
        software_trust_level(&profile(
            "unknown-os",
            vec![
                SandboxMechanism::Namespaces,
                SandboxMechanism::SeccompBpf,
                SandboxMechanism::Landlock,
                SandboxMechanism::HyperV,
            ],
        )),
        TrustLevel::Unverified
    );
}

fn publish_request(base_cost_per_1k_micro: i64) -> PublishModelRequest {
    PublishModelRequest {
        node_id: Uuid::from_u128(0),
        name: "model".to_owned(),
        alias: "instance".to_owned(),
        format: "gguf".to_owned(),
        weights_hash: "ab".repeat(32),
        size_bytes: 1,
        context_length: 1,
        benchmark_normalized: 0,
        glicko_normalized: 0,
        evaluation_samples: 0,
        base_cost_per_1k_micro,
        tags: Vec::new(),
    }
}

#[test]
fn model_publish_rejects_arbitrary_or_over_cap_base_cost() {
    assert!(validate_publish(&publish_request(1_000_000)).is_ok());
    assert!(validate_publish(&publish_request(1_000)).is_err());
    assert!(validate_publish(&publish_request(9_999)).is_err());
    assert!(validate_publish(&publish_request(1_000_001)).is_err());
}

#[test]
fn contribution_percentile_is_midrank_and_privacy_suppressed() {
    assert_eq!(percentile(4, 3, 1, true).expect("有效小 cohort"), None);
    assert_eq!(percentile(5, 0, 1, false).expect("目标缺失"), None);
    assert_eq!(percentile(5, 0, 1, true).expect("最低贡献"), Some(0.0));
    assert_eq!(percentile(5, 4, 1, true).expect("最高贡献"), Some(1.0));
    assert_eq!(percentile(5, 1, 2, true).expect("并列 midrank"), Some(0.375));
    assert!(percentile(5, 5, 1, true).is_err());
}

#[test]
fn milestones_and_zero_failure_streak_use_deterministic_server_rules() {
    assert_eq!(contribution_milestones(0), Some((0, 1_000_000)));
    assert_eq!(contribution_milestones(999_999), Some((0, 1_000_000)));
    assert_eq!(
        contribution_milestones(1_000_000),
        Some((1_000_000, 10_000_000))
    );
    assert_eq!(contribution_milestones(-1), None);

    assert_eq!(zero_failure_streak(&BTreeMap::new()), None);
    assert_eq!(
        zero_failure_streak(&BTreeMap::from([(0, 0), (1, 0), (2, 1)])),
        Some(2)
    );
    assert_eq!(
        zero_failure_streak(&BTreeMap::from([(1, 0), (2, 0), (3, 0)])),
        Some(3)
    );
    assert_eq!(
        zero_failure_streak(&BTreeMap::from([(0, 0), (2, 0)])),
        Some(1),
        "缺失日必须打断连续区间"
    );
    assert_eq!(zero_failure_streak(&BTreeMap::from([(0, 1)])), Some(0));
}

#[test]
fn network_leaderboard_suppresses_small_cohorts_and_quantizes_counts() {
    let suppressed =
        network_honor_leaderboard(4, &[1, 1, 2], 0).expect("有效小 cohort 应返回抑制榜");
    assert!(suppressed.suppressed);
    assert_eq!(suppressed.cohort_nodes, 0);
    assert!(suppressed.entries.is_empty());

    let published = network_honor_leaderboard(10, &[1, 1, 1, 1, 1, 1, 1, 1, 1, 1], 7)
        .expect("十节点 cohort 应发布匿名榜");
    assert!(!published.suppressed);
    assert_eq!(published.cohort_nodes, 10);
    assert_eq!(published.count_granularity, 5);
    assert_eq!(
        published.entries,
        vec![
            NetworkHonorLeaderboardEntry {
                label: NetworkHonorLabel::Top50Percent,
                qualifying_nodes_lower_bound: 5,
            },
            NetworkHonorLeaderboardEntry {
                label: NetworkHonorLabel::Contributor,
                qualifying_nodes_lower_bound: 10,
            },
            NetworkHonorLeaderboardEntry {
                label: NetworkHonorLabel::ZeroFailure100Days,
                qualifying_nodes_lower_bound: 5,
            },
        ]
    );
}

#[test]
fn network_leaderboard_gives_ties_one_shared_midrank_band() {
    assert_eq!(
        top_ranked_nodes(10, &[2, 3, 5], 25).expect("有效并列分组应可排名"),
        5,
        "最高五个并列节点必须整组进入 Top 25% 档"
    );
    assert_eq!(
        top_ranked_nodes(5, &[5], 50).expect("全员并列应可排名"),
        5,
        "全员并列的 midrank 为 50%，不得人为拆散"
    );
    assert!(network_honor_leaderboard(5, &[2, 2], 0).is_err());
}

#[test]
fn wider_bands_hold_more_nodes() {
    let groups = [1, 1, 1, 1, 1, 1, 1, 1, 1, 1];
    let narrow = top_ranked_nodes(10, &groups, 10).expect("valid");
    let wide = top_ranked_nodes(10, &groups, 50).expect("valid");
    assert!(narrow <= wide);
    assert_eq!(wide, 5);
}

#[test]
fn told_counts_are_rounded_down_or_left_out() {
    let mut entries = Vec::new();
    push_quantized_honor_entry(&mut entries, NetworkHonorLabel::Contributor, 4).expect("valid");
    assert!(entries.is_empty());
    push_quantized_honor_entry(&mut entries, NetworkHonorLabel::Contributor, 14).expect("valid");
    assert_eq!(entries[0].qualifying_nodes_lower_bound, 10);
    assert!(push_quantized_honor_entry(&mut entries, NetworkHonorLabel::Contributor, -1).is_err());
}

#[test]
fn long_streaks_are_counted() {
    assert_eq!(
        count_long_streaks(&vec![Some(100), Some(99), None, Some(300)]),
        Ok(2)
    );
    let day = |node, days_ago, failures| NodeDay {
        node_id: Uuid::from_u128(node),
        days_ago,
        failures,
    };
    let mut rows: Vec<NodeDay> = (0..100).map(|days_ago| day(9, days_ago, 0)).collect();
    rows.extend((1..=120).map(|days_ago| day(2, days_ago, 0)));
    rows.extend([day(5, 0, 1), day(5, 1, 0), day(7, -1, 0), day(7, 3, -2)]);
    assert_eq!(streaks_by_node(&rows), vec![Some(100), Some(120), Some(0)]);
    assert_eq!(network_zero_failure_100_days_nodes(&rows), Ok(2));
    assert_eq!(zero_failure_100_days_nodes(5, &rows), Ok(2));
    assert_eq!(zero_failure_100_days_nodes(4, &rows), Ok(0));
    assert_eq!(daily_failures(&rows, Uuid::from_u128(5)), BTreeMap::from([(0, 1), (1, 0)]));
    assert!(daily_failures(&rows, Uuid::from_u128(7)).is_empty());
    assert_eq!(published_cohort(4), 0);
    assert_eq!(published_cohort(5), 5);
    assert_eq!(check_contribution(0), Ok(()));
    assert!(check_contribution(-1).is_err());
}

#[test]
fn trust_levels_survive_storage() {
    for trust in [
        TrustLevel::Enhanced,
        TrustLevel::Standard,
        TrustLevel::StandardLimited,
        TrustLevel::Experimental,
        TrustLevel::Unverified,
    ] {
        assert_eq!(parse_db_trust_level(trust_level_db(trust)), Ok(trust));
    }
    assert_eq!(parse_db_trust_level("standard_limited"), Err(ApiError::Internal));
    assert_eq!(check_registration(&Some("standard".to_owned())), Ok(TrustLevel::Standard));
    assert!(check_registration(&None).is_err());
}

#[test]
fn heartbeats_pause_and_resume() {
    let limits = NodeLimits {
        max_concurrent: 2,
        gpu_temp_limit_c: Some(80),
        vram_reserve_mib: 1_000,
    };
    let beat = Heartbeat {
        current_concurrent: 0,
        gpu_temp_c: Some(70),
        vram_used_mib: Some(1_000),
        vram_total_mib: Some(8_000),
        draining: false,
    };
    assert_eq!(node_heartbeat(beat, limits, false), (NodeActivity::Online, None));
    assert_eq!(
        node_heartbeat(Heartbeat { gpu_temp_c: Some(80), ..beat }, limits, false),
        (NodeActivity::Paused, Some(PauseReason::GpuTemperatureLimit))
    );
    assert_eq!(
        node_heartbeat(Heartbeat { gpu_temp_c: Some(76), ..beat }, limits, true),
        (NodeActivity::Paused, Some(PauseReason::GpuTemperatureLimit))
    );
    assert_eq!(
        node_heartbeat(Heartbeat { gpu_temp_c: Some(76), ..beat }, limits, false),
        (NodeActivity::Online, None)
    );
    assert_eq!(
        node_heartbeat(Heartbeat { vram_used_mib: Some(7_500), ..beat }, limits, false),
        (NodeActivity::Paused, Some(PauseReason::VramReserve))
    );
    assert_eq!(
        node_heartbeat(Heartbeat { current_concurrent: 2, ..beat }, limits, false),
        (NodeActivity::Paused, Some(PauseReason::MaxConcurrent))
    );
    assert_eq!(
        node_heartbeat(Heartbeat { draining: true, ..beat }, limits, false).0,
        NodeActivity::Draining
    );
    assert!(paused_for_temperature("paused", &Some("gpu_temperature_limit".to_owned())));
    assert!(!paused_for_temperature("online", &Some("gpu_temperature_limit".to_owned())));
    assert_eq!(NodeActivity::Draining.db_name(), "draining");
    assert_eq!(PauseReason::VramReserve.db_name(), "vram_reserve");
}

#[test]
fn names_and_tags_are_bounded() {
    assert_eq!(validate_alias("node-1"), Ok(()));
    assert!(validate_alias("").is_err());
    assert!(validate_alias("  ").is_err());
    assert!(validate_alias(&"a".repeat(129)).is_err());
    assert_eq!(validate_tags(&["chat".to_owned(), "code".to_owned()]), Ok(()));
    assert!(validate_tags(&["".to_owned()]).is_err());
    assert!(validate_tags(&vec!["t".to_owned(); 65]).is_err());
}

#[test]
fn publishers_choose_no_quality() {
    let mut rated = publish_request(1_000_000);
    rated.glicko_normalized = 1;
    assert_eq!(
        validate_publish(&rated),
        Err(ApiError::bad_request(
            "client_quality_forbidden",
            "公开发布不得自报 benchmark、Glicko 或评价样本；这些字段必须为 0"
        ))
    );
    assert_eq!(
        validate_publish(&publish_request(1)),
        Err(ApiError::bad_request(
            "client_base_cost_forbidden",
            "base_cost_per_1k_micro 必须等于协调器 v1 唯一受控基准，发布者不能选择费率"
        ))
    );
    let id = Uuid::from_u128(1);
    assert_eq!(check_published(1_000_000, Some(id)), Ok(id));
    assert_eq!(check_published(1_000_001, Some(id)), Err(ApiError::Internal));
    assert_eq!(
        check_published(1_000_000, None),
        Err(ApiError::conflict("model_alias_exists", "此节点的模型别名已经绑定到另一模型"))
    );
}

#[test]
fn models_are_listed_in_pages_and_speeds() {
    let page = |limit| ModelListQuery { name: None, limit }.page_size();
    assert_eq!(page(None), 100);
    assert_eq!(page(Some(0)), 1);
    assert_eq!(page(Some(1_000)), 200);
    assert_eq!(
        speed_variants("m"),
        ("m-fast".to_owned(), "m".to_owned(), "m-slow".to_owned())
    );
    assert_eq!(unpublished_status(0), "unpublished");
    assert_eq!(unpublished_status(1), "draining");
}

#[test]
fn policies_fit_the_database() {
    let values = sql_policy_values(4, Some(80), 1_024).expect("fits");
    assert_eq!(values.max_concurrent, 4);
    assert_eq!(values.gpu_temp_limit_c, Some(80));
    assert_eq!(values.vram_reserve_mib, 1_024);
    assert!(sql_policy_values(u32::MAX, None, 0).is_err());
    assert!(sql_policy_values(1, None, u64::MAX).is_err());
}

#[test]
fn node_statistics_are_for_their_owner() {
    let owner = Uuid::from_u128(1);
    assert_eq!(authorize_node_stats(owner, owner), Ok(()));
    assert_eq!(
        authorize_node_stats(owner, Uuid::from_u128(2)),
        Err(ApiError::forbidden("无权查看此节点"))
    );
}

#[test]
fn test_profiles_belong_to_their_model() {
    let model = Uuid::from_u128(9);
    assert_eq!(test_profile_fingerprint(model).len(), 64);
    assert_ne!(test_profile_fingerprint(model), test_profile_fingerprint(Uuid::from_u128(8)));
    assert!(check_test_profile(model, Uuid::from_u128(8)).is_err());
}

#[test]
fn models_are_listed_in_order_and_once() {
    let all = ["b", "a", "真", "ab", "a", "b"].map(str::to_owned).to_vec();
    assert_eq!(listed_names(&all), ["a", "ab", "b", "真"]);
    assert!(listed_names(&Vec::new()).is_empty());
}
