use mindone_coordinator::billing::{BillingQuote, JobBillingSnapshot};
use mindone_coordinator::error::ApiError;
use mindone_coordinator::ids::Uuid;
use mindone_coordinator::jobs::{
    billing_profile_unavailable, AntiAbuseError, AttestationProvider, JobStatus,
};
use mindone_coordinator::regulated::{
    check_consumed, check_existing_job, check_existing_route, consume_route,
    create_regulated_job, evidence_kind_from_db, plan_route_expiry, prepare_regulated_job, regulated_lease_binding_valid,
    regulated_request_fingerprint, response_from_selected, select_capable,
    AttestationEvidenceKind, Consumption, ExistingRegulatedJob, NodeCapacity, PreparedRoute,
    RegulatedCreation, RegulatedLease, RequestEnvelope, SelectedCandidate, SelectedReport,
};

const NOW: i128 = 1_700_000_000_000_000_000;
const SECOND: i128 = 1_000_000_000;

fn node() -> NodeCapacity {
    NodeCapacity {
        status: "online".to_owned(),
        trust_level: "enhanced".to_owned(),
        last_seen_at: Some(NOW - SECOND),
        trust_expires_at: Some(NOW + 600 * SECOND),
        attestation_report_id: Some(Uuid::from_u128(5)),
        reject_tags: vec!["Private".to_owned()],
        reserved_count: 0,
        max_concurrent: 1,
        gpu_temp_limit_c: Some(80),
        gpu_temp_c: Some(70),
        vram_reserve_mib: 1_000,
        vram_used_mib: Some(1_000),
        vram_total_mib: Some(8_000),
    }
}

fn route() -> PreparedRoute {
    PreparedRoute {
        user_id: Uuid::from_u128(1),
        status: "prepared".to_owned(),
        model_instance_id: Uuid::from_u128(3),
        node_id: Uuid::from_u128(4),
        report_id: Uuid::from_u128(5),
        weights_hash: "2".repeat(64),
        expires_at: NOW + 60 * SECOND,
        instance_status: "published".to_owned(),
        instance_quarantined: false,
        current_instance_node: Uuid::from_u128(4),
        node_status: "online".to_owned(),
        last_seen_at: NOW - SECOND,
        current_report_id: Some(Uuid::from_u128(5)),
        trust_expires_at: Some(NOW + 600 * SECOND),
        report_status: "verified".to_owned(),
        key_origin: "tee_runtime".to_owned(),
        report_instance_id: Uuid::from_u128(3),
        report_node_id: Uuid::from_u128(4),
        report_model_hash: "2".repeat(64),
        ephemeral_public_key: "tee".to_owned(),
        report_expires_at: NOW + 600 * SECOND,
        collateral_expires_at: NOW + 600 * SECOND,
        estimated_input_tokens: 40,
        max_output_tokens: 10,
    }
}

fn quote() -> BillingQuote {
    BillingQuote {
        billable_tokens: 1,
        reference_gpu_time_us: 2,
        reference_vram_mib_microseconds: 3,
        token_cost_micro: 4,
        gpu_cost_micro: 5,
        vram_cost_micro: 6,
        base_cost_micro: 15,
    }
}

fn consumption() -> Consumption {
    Consumption {
        route: route(),
        frozen: JobBillingSnapshot {
            contract_version: "server_reference_upper_bound_v1".to_owned(),
            profile_id: Uuid::from_u128(1),
            profile_version: 1,
            profile_fingerprint: "1".repeat(64),
            model_weights_hash: "2".repeat(64),
            reference_hardware_class: "nvidia-l4".to_owned(),
            profile_evidence_hash: "3".repeat(64),
            profile_valid_from: 0,
            profile_valid_until: 1,
            profile_max_input_tokens: 4_096,
            profile_max_output_tokens: 1_024,
            fixed_gpu_time_us: 1,
            gpu_time_us_per_1k_tokens: 1,
            reference_vram_mib: 1,
            token_rate_micro_per_1k: 1,
            gpu_rate_micro_per_second: 1,
            vram_rate_micro_per_gib_second: 1,
            authorized_input_tokens: 40,
            authorized_max_output_tokens: 10,
            billable_tokens: 1,
            reference_gpu_time_us: 2,
            reference_vram_mib_microseconds: 3,
            token_cost_micro: 4,
            gpu_cost_micro: 5,
            vram_cost_micro: 6,
            base_cost_micro: 15,
        },
        quote: Some(quote()),
        reservation_micro: Some(23),
        tags: Vec::new(),
        node: node(),
        quarantined: false,
        envelope: RequestEnvelope {
            report_id: Uuid::from_u128(5),
            model_instance_id: Uuid::from_u128(3),
            sender_public_key: "consumer".to_owned(),
        },
        opaque: Some("{}".to_owned()),
        spendable_micro: 100,
        reserved_micro: 70,
    }
}

fn create(consumption: Consumption) -> Result<(i64, i64), ApiError> {
    consume_route(Some(consumption), Uuid::from_u128(1), NOW)
}

fn ask(
    existing: &Option<ExistingRegulatedJob>,
    assessment: Result<bool, AntiAbuseError>,
    consumption: Consumption,
) -> Result<RegulatedCreation, ApiError> {
    let (user, route) = (Uuid::from_u128(1), Uuid::from_u128(8));
    create_regulated_job(existing, route, "f", assessment, Some(consumption), user, NOW)
}

#[test]
fn requests_create_one_job_each() {
    assert_eq!(
        ask(&None, Ok(true), consumption()),
        Ok(RegulatedCreation::Created { reservation_micro: 23, reserved_after_micro: 93 })
    );
    assert_eq!(ask(&None, Ok(false), consumption()), Err(ApiError::AntiAbuseBlocked));
    assert_eq!(
        ask(&None, Err(AntiAbuseError::Database), consumption()),
        Err(ApiError::Internal)
    );
    let stored = |fingerprint: &str| {
        Some(ExistingRegulatedJob {
            job_id: Uuid::from_u128(9),
            status: "leased".to_owned(),
            model_id: Uuid::from_u128(2),
            reserved_cost_micro: 23,
            route_id: Some(Uuid::from_u128(8)),
            request_fingerprint: Some(fingerprint.to_owned()),
        })
    };
    let mut spent = consumption();
    spent.route.status = "consumed".to_owned();
    assert_eq!(
        ask(&stored("f"), Ok(false), spent),
        Ok(RegulatedCreation::Replay {
            job_id: Uuid::from_u128(9),
            status: JobStatus::Leased,
            model_id: Uuid::from_u128(2),
            reserved_cost_micro: 23,
        })
    );
    assert_eq!(
        ask(&stored("g"), Ok(true), consumption()),
        Err(ApiError::conflict(
            "idempotency_binding_mismatch",
            "Regulated 创建幂等键已绑定到不同 route 或 envelope"
        ))
    );
    let mut spent = consumption();
    spent.route.status = "consumed".to_owned();
    assert!(matches!(
        ask(&None, Ok(true), spent),
        Err(ApiError::Conflict { code: "regulated_route_replay", .. })
    ));
    let mut unknown = stored("f").expect("stored");
    unknown.status = "lost".to_owned();
    assert_eq!(ask(&Some(unknown), Ok(true), consumption()), Err(ApiError::Internal));
}

#[test]
fn fingerprints_are_told_apart_by_domain() {
    let prepare = regulated_request_fingerprint("prepare-v1", b"{}");
    assert_eq!(prepare.len(), 64);
    assert_ne!(prepare, regulated_request_fingerprint("create-v1", b"{}"));
    assert_ne!(prepare, regulated_request_fingerprint("prepare-v1", b"[]"));
}

#[test]
fn keys_are_used_for_one_request() {
    let stored = Some("f".to_owned());
    assert_eq!(check_existing_route(&stored, "prepared", "f"), Ok(()));
    assert!(check_existing_route(&stored, "consumed", "f").is_err());
    assert!(check_existing_route(&stored, "prepared", "g").is_err());
    let route_id = Uuid::from_u128(1);
    assert_eq!(check_existing_job(Some(route_id), &stored, route_id, "f"), Ok(()));
    assert!(check_existing_job(None, &stored, route_id, "f").is_err());
    assert!(check_existing_job(Some(route_id), &stored, route_id, "g").is_err());
    assert_eq!(check_consumed(1), Ok(()));
    assert!(check_consumed(0).is_err());
}

#[test]
fn the_first_capable_node_is_selected() {
    let mut busy = node();
    busy.reserved_count = 1;
    let mut silent = node();
    silent.last_seen_at = Some(NOW - 90 * SECOND);
    let tags = vec!["chat".to_owned()];
    assert_eq!(select_capable(&vec![busy, silent, node(), node()], &tags, NOW), Ok(2));
    let refused = ApiError::attestation_unavailable(
        "没有具备未过期本机可复验硬件报告与 TEE runtime 密钥的 Regulated 节点",
    );
    assert_eq!(select_capable(&Vec::new(), &tags, NOW), Err(refused));
    assert!(select_capable(&vec![node()], &vec!["PRIVATE".to_owned()], NOW).is_err());
    let mut hot = node();
    hot.gpu_temp_c = None;
    assert!(select_capable(&vec![hot], &tags, NOW).is_err());
    let mut full = node();
    full.vram_used_mib = Some(7_001);
    assert!(select_capable(&vec![full], &tags, NOW).is_err());
}

#[test]
fn routes_are_prepared_on_fresh_evidence() {
    let candidate = || SelectedCandidate {
        quarantined: false,
        report: SelectedReport {
            evidence: Some("evidence".to_owned()),
            issued_at: NOW - 10 * SECOND,
            verified_at: Some(NOW - 5 * SECOND),
            tee_measurement: Some("m".to_owned()),
        },
        report_expires_at: NOW + 600 * SECOND,
        collateral_expires_at: NOW + 600 * SECOND,
        billing_valid_until: Some(NOW + 90 * SECOND),
    };
    assert_eq!(prepare_regulated_job(&candidate(), NOW), Ok(NOW + 90 * SECOND));
    let mut unpriced = candidate();
    unpriced.billing_valid_until = None;
    assert_eq!(prepare_regulated_job(&unpriced, NOW), Err(billing_profile_unavailable()));
    let mut isolated = candidate();
    isolated.quarantined = true;
    assert!(matches!(
        prepare_regulated_job(&isolated, NOW),
        Err(ApiError::AttestationUnavailable { .. })
    ));
    let mut future = candidate();
    future.report.verified_at = Some(NOW + 31 * SECOND);
    assert!(prepare_regulated_job(&future, NOW).is_err());
    let far = NOW + 600 * SECOND;
    assert_eq!(plan_route_expiry(NOW, far, far, far), Ok(NOW + 120 * SECOND));
    assert!(plan_route_expiry(NOW, NOW + 30 * SECOND, far, far).is_err());
    assert_eq!(
        plan_route_expiry(NOW, far, far, NOW + 30 * SECOND),
        Err(billing_profile_unavailable())
    );
}

#[test]
fn routes_are_consumed_by_their_account_while_they_hold() {
    assert_eq!(create(consumption()), Ok((23, 93)));
    assert_eq!(
        consume_route(None, Uuid::from_u128(1), NOW),
        Err(ApiError::not_found("Regulated prepared route"))
    );
    assert_eq!(
        consume_route(Some(consumption()), Uuid::from_u128(2), NOW),
        Err(ApiError::forbidden("无权消费该 Regulated route"))
    );
    let mut spent = consumption();
    spent.route.status = "consumed".to_owned();
    assert!(matches!(create(spent), Err(ApiError::Conflict { code: "regulated_route_replay", .. })));
    let mut replaced = consumption();
    replaced.route.current_report_id = Some(Uuid::from_u128(6));
    assert!(matches!(create(replaced), Err(ApiError::AttestationFailed { .. })));
    let mut repriced = consumption();
    repriced.quote = Some(BillingQuote { base_cost_micro: 16, ..quote() });
    assert_eq!(create(repriced), Err(billing_profile_unavailable()));
    let mut busy = consumption();
    busy.node.reserved_count = 1;
    assert!(matches!(create(busy), Err(ApiError::PolicyRejected { .. })));
    let mut isolated = consumption();
    isolated.quarantined = true;
    assert!(matches!(create(isolated), Err(ApiError::AttestationFailed { .. })));
    let mut own_key = consumption();
    own_key.envelope.sender_public_key = "tee".to_owned();
    assert!(matches!(create(own_key), Err(ApiError::AttestationFailed { .. })));
    let mut large = consumption();
    large.opaque = Some("x".repeat(900_001));
    assert_eq!(
        create(large),
        Err(ApiError::bad_request(
            "invalid_regulated_job",
            "Regulated envelope 超过任务载荷上限"
        ))
    );
    let mut poor = consumption();
    poor.reserved_micro = 78;
    assert_eq!(create(poor), Err(ApiError::InsufficientQuota));
}

#[test]
fn leases_hold_while_their_hardware_is_trusted() {
    let lease = || RegulatedLease {
        confidentiality: "regulated".to_owned(),
        job_status: "leased".to_owned(),
        leased_to_node_id: Some(Uuid::from_u128(4)),
        regulated_node_id: Uuid::from_u128(4),
        model_id: Uuid::from_u128(2),
        model_instance_id: Uuid::from_u128(3),
        attestation_report_id: Uuid::from_u128(5),
        node_status: "online".to_owned(),
        last_seen_at: Some(NOW - SECOND),
        trust_level: "enhanced".to_owned(),
        trust_expires_at: Some(NOW + SECOND),
        node_report_id: Some(Uuid::from_u128(5)),
        instance_node_id: Uuid::from_u128(4),
        instance_model_id: Uuid::from_u128(2),
        instance_status: "published".to_owned(),
        instance_quarantined: false,
        model_enabled: true,
        weights_hash: "w".to_owned(),
        report_node_id: Uuid::from_u128(4),
        report_instance_id: Some(Uuid::from_u128(3)),
        report_model_hash: "w".to_owned(),
        report_status: "verified".to_owned(),
        report_key_origin: "tee_runtime".to_owned(),
        report_expires_at: Some(NOW + SECOND),
        collateral_current: Some(true),
        collateral_expires_at: Some(NOW + SECOND),
        signature_verified: Some(true),
        certificate_chain_verified: Some(true),
        tcb_current: Some(true),
    };
    let valid = |lease: RegulatedLease| {
        regulated_lease_binding_valid(&Some(lease), Uuid::from_u128(4), NOW)
    };
    assert!(valid(lease()));
    let mut stale = lease();
    stale.tcb_current = None;
    assert!(!valid(stale));
    let mut expired = lease();
    expired.report_expires_at = Some(NOW);
    assert!(!valid(expired));
    assert!(!regulated_lease_binding_valid(&None, Uuid::from_u128(4), NOW));
    assert!(!regulated_lease_binding_valid(&Some(lease()), Uuid::from_u128(9), NOW));
}

#[test]
fn evidence_is_shown_with_its_nonce() {
    let shown = response_from_selected(
        "amd_sev_snp",
        "snp_extended_report",
        Some("evidence".to_owned()),
        &vec![0; 3],
    )
    .expect("complete");
    assert_eq!(shown.provider, AttestationProvider::AmdSevSnp);
    assert_eq!(shown.evidence_kind, AttestationEvidenceKind::SnpExtendedReport);
    assert_eq!(shown.challenge_nonce, "AAAA");
    assert!(response_from_selected("amd_sev_snp", "tdx_quote", None, &vec![]).is_err());
    assert!(evidence_kind_from_db("other").is_err());
}
