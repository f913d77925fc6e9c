use mindone_coordinator::arithmetic::{ceil_div, checked_i64};
use mindone_coordinator::billing::{
    frozen_base_for_authorized_usage, maximum_reservation_base_micro, sha256_hex, BillingQuote,
    JobBillingRow, JobBillingSnapshot,
};
use mindone_coordinator::error::ApiError;
use mindone_coordinator::ids::Uuid;
use mindone_coordinator::reserve::{
    release_reserve, replay_release, reserve_entry_type, reserve_release_request_fingerprint,
    valid_operator_identifier, validate_reserve_release_command, ExistingRelease, ReserveAnswer,
    ReservePurpose, ReserveReleaseCommand,
};
use mindone_coordinator::settlement::{
    accounts_to_lock, check_locked_accounts, complete_job, fail_regulated_lease_attestation,
    load_outcome, maximum_reservation_micro, parse_telemetry_verdict, performance_tier,
    plan_settlement, protect_result, receipt_of, release_reservation, settlement_basis, trust_class,
    validate_regulated_result_binding, CalculatedSettlement, CompleteJob, Completion, EnvelopeError,
    ExecutionTelemetryVerdict, PerformanceTier, ReceiptFields, ReceiptRow, RegulatedBinding,
    ResultEnvelope, SettlementBalances, SettlementFacts, SettlementLine, SettlementStep,
    SubmissionRow, TelemetryConclusion, TrustClass,
};
use mindone_coordinator::standard_data::{encrypt_for_storage, StorageDirection};

const NOW: i128 = 1_700_000_000_000_000_000;
const KEY: [u8; 32] = [5; 32];

fn snapshot() -> JobBillingSnapshot {
    JobBillingSnapshot {
        contract_version: "server_reference_upper_bound_v1".to_owned(),
        profile_id: Uuid::from_u128(1),
        profile_version: 1,
        profile_fingerprint: "1".repeat(64),
        model_weights_hash: "2".repeat(64),
        reference_hardware_class: "nvidia-l4".to_owned(),
        profile_evidence_hash: "3".repeat(64),
        profile_valid_from: 0,
        profile_valid_until: 86_400_000_000_000,
        profile_max_input_tokens: 4_096,
        profile_max_output_tokens: 1_024,
        fixed_gpu_time_us: 100_000,
        gpu_time_us_per_1k_tokens: 2_000_000,
        reference_vram_mib: 8_192,
        token_rate_micro_per_1k: 1_000_000,
        gpu_rate_micro_per_second: 2_000,
        vram_rate_micro_per_gib_second: 3_000,
        authorized_input_tokens: 40,
        authorized_max_output_tokens: 10,
        billable_tokens: 50,
        reference_gpu_time_us: 200_000,
        reference_vram_mib_microseconds: 1_638_400_000,
        token_cost_micro: 50_000,
        gpu_cost_micro: 400,
        vram_cost_micro: 4_800,
        base_cost_micro: 55_200,
    }
}

fn quote() -> BillingQuote {
    BillingQuote {
        billable_tokens: 50,
        reference_gpu_time_us: 200_000,
        reference_vram_mib_microseconds: 1_638_400_000,
        token_cost_micro: 50_000,
        gpu_cost_micro: 400,
        vram_cost_micro: 4_800,
        base_cost_micro: 55_200,
    }
}

fn billing_row() -> JobBillingRow {
    let frozen = snapshot();
    JobBillingRow {
        contract_version: Some(frozen.contract_version),
        profile_id: Some(frozen.profile_id),
        profile_version: Some(frozen.profile_version),
        profile_fingerprint: Some(frozen.profile_fingerprint),
        model_weights_hash: Some(frozen.model_weights_hash),
        reference_hardware_class: Some(frozen.reference_hardware_class),
        profile_evidence_hash: Some(frozen.profile_evidence_hash),
        profile_valid_from: Some(frozen.profile_valid_from),
        profile_valid_until: Some(frozen.profile_valid_until),
        profile_max_input_tokens: Some(frozen.profile_max_input_tokens),
        profile_max_output_tokens: Some(frozen.profile_max_output_tokens),
        fixed_gpu_time_us: Some(frozen.fixed_gpu_time_us),
        gpu_time_us_per_1k_tokens: Some(frozen.gpu_time_us_per_1k_tokens),
        reference_vram_mib: Some(frozen.reference_vram_mib),
        token_rate_micro_per_1k: Some(frozen.token_rate_micro_per_1k),
        gpu_rate_micro_per_second: Some(frozen.gpu_rate_micro_per_second),
        vram_rate_micro_per_gib_second: Some(frozen.vram_rate_micro_per_gib_second),
        authorized_input_tokens: Some(frozen.authorized_input_tokens),
        authorized_max_output_tokens: Some(frozen.authorized_max_output_tokens),
        billable_tokens: Some(frozen.billable_tokens),
        reference_gpu_time_us: Some(frozen.reference_gpu_time_us),
        reference_vram_mib_microseconds: Some(frozen.reference_vram_mib_microseconds),
        token_cost_micro: Some(frozen.token_cost_micro),
        gpu_cost_micro: Some(frozen.gpu_cost_micro),
        vram_cost_micro: Some(frozen.vram_cost_micro),
        base_cost_micro: Some(frozen.base_cost_micro),
    }
}

fn command() -> CompleteJob {
    CompleteJob {
        job_id: Uuid::from_u128(1),
        node_id: Uuid::from_u128(2),
        worker_user_id: Uuid::from_u128(3),
        claim_device_key_id: Uuid::from_u128(4),
        idempotency_key: "key".to_owned(),
        result_ciphertext: "cmVzdWx0".to_owned(),
        actual_input_tokens: 40,
        actual_output_tokens: 10,
    }
}

fn submission(status: &str) -> SubmissionRow {
    SubmissionRow {
        status: status.to_owned(),
        leased_to_node_id: Some(Uuid::from_u128(2)),
        node_user_id: Uuid::from_u128(3),
        node_device_key_id: Some(Uuid::from_u128(4)),
        claim_device_key_id: Some(Uuid::from_u128(4)),
        claim_device_binding_version: Some(1),
        confidentiality: "standard".to_owned(),
        result_idempotency_key: None,
        result_ciphertext: None,
        standard_result_storage_version: None,
        result_telemetry_fingerprint: None,
        actual_input_tokens: None,
        actual_output_tokens: None,
    }
}

fn facts() -> SettlementFacts {
    SettlementFacts {
        regulated_lease_valid: true,
        result_envelope: Err(EnvelopeError::Unreadable),
        regulated_binding: RegulatedBinding {
            route_id: None,
            report_id: None,
            model_instance_id: None,
            tee_public_key: None,
        },
        lease_expires_at: Some(NOW + 1),
        now: NOW,
        estimated_input_tokens: 40,
        max_output_tokens: 10,
        billing: billing_row(),
        quote: Some(quote()),
        tier: "high".to_owned(),
        trust_level: "standard-limited".to_owned(),
    }
}

fn release_command() -> ReserveReleaseCommand {
    ReserveReleaseCommand {
        purpose: ReservePurpose::FailedRetry,
        amount_micro: 1_000,
        reference_id: "incident-1".to_owned(),
        idempotency_key: "release-key-1".to_owned(),
        operator_id: "operator-1".to_owned(),
        reason: "补偿失败重试的额度".to_owned(),
    }
}

#[test]
fn reservation_uses_high_tier_upper_bound() {
    let base = maximum_reservation_base_micro(500, 500, 1_000).expect("valid limits");
    assert_eq!(base, 1_000);
    let value = maximum_reservation_micro(500, 500, 1_000, Some(base * 3 / 2));
    assert_eq!(value.ok(), Some(1_500));
}

#[test]
fn frozen_physical_base_does_not_change_with_actual_usage() {
    let billing = snapshot();
    billing
        .validate_frozen_quote(&Some(quote()))
        .expect("测试快照应满足 v1 物理计费公式");

    let small = frozen_base_for_authorized_usage(&billing, 1, 1);
    let full = frozen_base_for_authorized_usage(&billing, 40, 10);
    assert_eq!(small.ok(), Some(55_200));
    assert_eq!(full.ok(), Some(55_200));
    assert!(frozen_base_for_authorized_usage(&billing, 41, 1).is_err());
    assert!(frozen_base_for_authorized_usage(&billing, 1, 11).is_err());

    let canonical_hash = billing.canonical_hash().expect("计费快照应可规范哈希");
    let mut changed_contract = snapshot();
    changed_contract.contract_version = "server_reference_upper_bound_v2".to_owned();
    assert_ne!(
        canonical_hash,
        changed_contract.canonical_hash().expect("合同变更应可哈希")
    );
    let mut changed_profile = snapshot();
    changed_profile.profile_version = 2;
    assert_ne!(
        canonical_hash,
        changed_profile.canonical_hash().expect("档案变更应可哈希")
    );
    let mut changed_component = snapshot();
    changed_component.gpu_cost_micro += 1;
    assert_ne!(
        canonical_hash,
        changed_component.canonical_hash().expect("组件变更应可哈希")
    );
}

#[test]
fn contracts_are_hashed_as_json() {
    let spelled = format!(
        "{{\"contract_version\":\"server_reference_upper_bound_v1\",\"profile_id\":\"{}\",\
         \"profile_version\":1,\"profile_fingerprint\":\"{}\",\"model_weights_hash\":\"{}\",\
         \"reference_hardware_class\":\"nvidia-l4\",\"profile_evidence_hash\":\"{}\",\
         \"profile_valid_from\":[1970,1,0,0,0,0,0,0,0],\
         \"profile_valid_until\":[1970,2,0,0,0,0,0,0,0],\
         \"profile_max_input_tokens\":4096,\"profile_max_output_tokens\":1024,\
         \"fixed_gpu_time_us\":100000,\"gpu_time_us_per_1k_tokens\":2000000,\
         \"reference_vram_mib\":8192,\"token_rate_micro_per_1k\":1000000,\
         \"gpu_rate_micro_per_second\":2000,\"vram_rate_micro_per_gib_second\":3000,\
         \"authorized_input_tokens\":40,\"authorized_max_output_tokens\":10,\
         \"billable_tokens\":50,\"reference_gpu_time_us\":200000,\
         \"reference_vram_mib_microseconds\":1638400000,\"token_cost_micro\":50000,\
         \"gpu_cost_micro\":400,\"vram_cost_micro\":4800,\"base_cost_micro\":55200}}",
        "00000000-0000-0000-0000-000000000001",
        "1".repeat(64),
        "2".repeat(64),
        "3".repeat(64),
    );
    assert_eq!(snapshot().canonical_hash(), Ok(sha256_hex(&spelled)));
    let mut endless = snapshot();
    endless.profile_valid_until = i128::MAX;
    assert_eq!(endless.canonical_hash(), Err(ApiError::Internal));
}

#[test]
fn reservations_are_bounded_and_rounded_up() {
    assert_eq!(maximum_reservation_base_micro(1, 1, 1), Ok(1));
    assert_eq!(maximum_reservation_base_micro(0, 1_000, 7), Ok(7));
    let refused =
        Err(ApiError::bad_request("invalid_usage_limits", "Token 上限或模型计价无效"));
    assert_eq!(maximum_reservation_base_micro(-1, 1, 1), refused);
    assert_eq!(maximum_reservation_base_micro(1, 0, 1), refused);
    assert_eq!(maximum_reservation_base_micro(1, 1, 0), refused);
    assert_eq!(
        maximum_reservation_base_micro(i32::MAX, i32::MAX, i64::MAX),
        Err(ApiError::Internal)
    );
    assert_eq!(maximum_reservation_micro(1, 1, 1, None), Err(ApiError::Internal));
    assert_eq!(ceil_div(7, 2), Ok(4));
    assert!(ceil_div(7, 0).is_err());
    assert_eq!(checked_i64(i128::from(i64::MAX)), Ok(i64::MAX));
    assert!(checked_i64(i128::from(i64::MAX) + 1).is_err());
}

#[test]
fn broken_snapshots_are_not_settled() {
    let mut quoted = quote();
    quoted.gpu_cost_micro += 1;
    assert!(snapshot().validate_frozen_quote(&Some(quoted)).is_err());
    assert!(snapshot().validate_frozen_quote(&None).is_err());
    let mut partial = billing_row();
    partial.profile_id = None;
    assert!(JobBillingSnapshot::from_job_row(partial, 40, 10).is_err());
    assert!(JobBillingSnapshot::from_job_row(billing_row(), 41, 10).is_err());
    assert!(JobBillingSnapshot::from_job_row(billing_row(), 40, 10).is_ok());
}

#[test]
fn results_are_settled_by_the_leasing_device() {
    let complete = |command: &CompleteJob, row: Option<SubmissionRow>| {
        complete_job(&KEY, command, &row, "telemetry", 1, facts())
    };
    match complete(&command(), Some(submission("leased"))) {
        Ok(Completion::New(SettlementStep::Settle(basis))) => {
            assert_eq!(basis.base_cost_micro, 55_200);
            assert_eq!(basis.performance_tier, PerformanceTier::High);
            assert_eq!(basis.trust_class, TrustClass::Standard);
        }
        _ => panic!("a new result is settled"),
    }
    assert_eq!(complete(&command(), None).err(), Some(ApiError::not_found("任务")));
    let mut unused = command();
    unused.actual_input_tokens = 0;
    unused.actual_output_tokens = 0;
    assert_eq!(
        complete(&unused, None).err(),
        Some(ApiError::bad_request("invalid_usage", "Token 使用量不能为负数或全部为零"))
    );
    let mut elsewhere = command();
    elsewhere.node_id = Uuid::from_u128(9);
    assert_eq!(
        complete(&elsewhere, Some(submission("leased"))).err(),
        Some(ApiError::forbidden("任务租约不属于当前节点"))
    );
    let mut stolen = command();
    stolen.claim_device_key_id = Uuid::from_u128(9);
    assert_eq!(
        complete(&stolen, Some(submission("leased"))).err(),
        Some(ApiError::forbidden("任务租约不属于当前设备"))
    );
    assert_eq!(
        complete(&command(), Some(submission("queued"))).err(),
        Some(ApiError::conflict("job_not_leased", "任务当前不处于可提交结果的租约状态"))
    );
}

#[test]
fn settled_results_are_replayed_exactly() {
    let command = command();
    let mut row = submission("succeeded");
    row.result_idempotency_key = Some("key".to_owned());
    row.result_ciphertext = Some(
        encrypt_for_storage(&KEY, command.job_id, StorageDirection::Result, b"cmVzdWx0")
            .expect("sealed"),
    );
    row.standard_result_storage_version = Some(1);
    row.result_telemetry_fingerprint = Some("telemetry".to_owned());
    row.actual_input_tokens = Some(40);
    row.actual_output_tokens = Some(10);
    let row = Some(row);
    assert!(matches!(
        complete_job(&KEY, &command, &row, "telemetry", 1, facts()),
        Ok(Completion::Replay)
    ));
    let conflict = ApiError::conflict(
        "idempotency_binding_mismatch",
        "结果幂等键已绑定到不同节点、密文、Token 使用量或任务遥测",
    );
    assert_eq!(
        complete_job(&KEY, &command, &row, "other", 1, facts()).err(),
        Some(conflict)
    );
    assert_eq!(
        complete_job(&[6; 32], &command, &row, "telemetry", 1, facts()).err(),
        Some(ApiError::Internal)
    );
}

#[test]
fn leases_and_trust_are_checked_before_settling() {
    let mut late = facts();
    late.lease_expires_at = Some(NOW);
    assert_eq!(
        settlement_basis("standard", late, 40, 10).err(),
        Some(ApiError::conflict("lease_expired", "任务租约已经过期"))
    );
    let mut untrusted = facts();
    untrusted.regulated_lease_valid = false;
    assert!(matches!(
        settlement_basis("regulated", untrusted, 40, 10),
        Ok(SettlementStep::TerminateLease)
    ));
    assert!(settlement_basis("regulated", facts(), 40, 10).is_err());
    let mut unknown_tier = facts();
    unknown_tier.tier = "huge".to_owned();
    assert_eq!(settlement_basis("standard", unknown_tier, 40, 10).err(), Some(ApiError::Internal));
    assert_eq!(performance_tier("medium"), Ok(PerformanceTier::Medium));
    assert_eq!(trust_class("experimental"), Ok(TrustClass::Unverified));
    assert!(trust_class("unknown").is_err());
    assert_eq!(fail_regulated_lease_attestation("regulated", "leased", 100, 40), Ok(60));
    assert!(fail_regulated_lease_attestation("standard", "leased", 100, 40).is_err());
    assert!(release_reservation(39, 40).is_err());
}

#[test]
fn regulated_results_are_bound_to_their_route() {
    let envelope = || ResultEnvelope {
        is_result: true,
        route_id: Uuid::from_u128(1),
        report_id: Uuid::from_u128(2),
        model_instance_id: Uuid::from_u128(3),
        sender_public_key: "tee".to_owned(),
    };
    let binding = RegulatedBinding {
        route_id: Some(Uuid::from_u128(1)),
        report_id: Some(Uuid::from_u128(2)),
        model_instance_id: Some(Uuid::from_u128(3)),
        tee_public_key: Some("tee".to_owned()),
    };
    assert_eq!(validate_regulated_result_binding(Ok(envelope()), &binding), Ok(()));
    let mut other = envelope();
    other.sender_public_key = "other".to_owned();
    assert!(validate_regulated_result_binding(Ok(other), &binding).is_err());
    let mut request = envelope();
    request.is_result = false;
    assert!(validate_regulated_result_binding(Ok(request), &binding).is_err());
    assert_eq!(
        validate_regulated_result_binding(Err(EnvelopeError::Unreadable), &binding),
        Err(ApiError::attestation_failed("TEE 返回的结果不是严格 Regulated envelope"))
    );
    let invalid = EnvelopeError::Invalid { reason: "ciphertext is empty".to_owned() };
    assert_eq!(
        validate_regulated_result_binding(Err(invalid), &binding),
        Err(ApiError::AttestationReason { detail: "ciphertext is empty".to_owned() })
    );
}

fn balances() -> SettlementBalances {
    SettlementBalances {
        consumer_user_id: Uuid::from_u128(1),
        node_user_id: Uuid::from_u128(2),
        reserved_cost_micro: 1_500,
        consumer_spendable_micro: 10_000,
        consumer_reserved_micro: 2_000,
        node_spendable_micro: 50,
        node_contribution_micro: 7,
        reserve_balance_micro: 3,
    }
}

const CALCULATED: CalculatedSettlement = CalculatedSettlement {
    user_deduction_micro: 1_500,
    node_quota_micro: 1_000,
    contribution_points_micro: 900,
    reserve_micro: 200,
};

#[test]
fn settlements_make_balanced_entries() {
    let plan = plan_settlement(CALCULATED, Some(1_000_000), 500_000, balances()).expect("covered");
    assert_eq!(plan.consumer.delta_micro, -1_500);
    assert_eq!(plan.consumer.after_micro, 8_500);
    assert_eq!(plan.node.before_micro, 50);
    assert_eq!(plan.node.after_micro, 1_050);
    assert_eq!(plan.contribution.delta_micro, 450);
    assert_eq!(plan.contribution.after_micro, 457);
    assert_eq!(plan.reserve.after_micro, 203);
    assert_eq!(plan.contribution_weight_ppm, 500_000);
    assert_eq!(plan.consumer_reserved_after_micro, 500);
    let undecided = plan_settlement(CALCULATED, None, 500_000, balances()).expect("covered");
    assert_eq!(undecided.contribution.delta_micro, 0);
    assert_eq!(undecided.consumer, plan.consumer);
    assert_eq!(undecided.node, plan.node);
    let own = SettlementBalances { node_user_id: Uuid::from_u128(1), ..balances() };
    let own_plan = plan_settlement(CALCULATED, None, 0, own).expect("covered");
    assert_eq!(own_plan.node.before_micro, 8_500);
    assert_eq!(own_plan.node.after_micro, 9_500);
}

#[test]
fn settlements_stay_within_reservation_and_balance() {
    let short = SettlementBalances { reserved_cost_micro: 1_499, ..balances() };
    assert_eq!(plan_settlement(CALCULATED, None, 0, short), Err(ApiError::Internal));
    let poor = SettlementBalances { consumer_spendable_micro: 1_499, ..balances() };
    assert_eq!(plan_settlement(CALCULATED, None, 0, poor), Err(ApiError::InsufficientQuota));
    let unreserved = SettlementBalances { consumer_reserved_micro: 1_499, ..balances() };
    assert_eq!(plan_settlement(CALCULATED, None, 0, unreserved), Err(ApiError::Internal));
    let full = SettlementBalances { reserve_balance_micro: i64::MAX, ..balances() };
    assert_eq!(plan_settlement(CALCULATED, None, 0, full), Err(ApiError::Internal));
}

#[test]
fn receipts_are_hashed_over_all_their_fields() {
    let fields = || ReceiptFields {
        receipt_id: Uuid::from_u128(1),
        job_id: Uuid::from_u128(2),
        consumer_hash: "c".to_owned(),
        node_quota_hash: "n".to_owned(),
        contribution_hash: "b".to_owned(),
        reserve_hash: "r".to_owned(),
        user_deduction_micro: 1,
        node_quota_micro: 2,
        contribution_micro: 3,
        contribution_weight_ppm: 4,
    };
    let billing = snapshot();
    let hash = fields().settlement_hash(&billing).expect("hashed");
    assert_eq!(
        hash,
        sha256_hex(&format!(
            "receipt-v2|{}|{}|c|n|b|r|1|2|3|4|{}",
            "00000000-0000-0000-0000-000000000001",
            "00000000-0000-0000-0000-000000000002",
            billing.canonical_hash().expect("hashed"),
        ))
    );
    let mut changed = fields();
    changed.contribution_micro = 4;
    assert_ne!(Ok(&hash), changed.settlement_hash(&billing).as_ref());
    let mut moved = fields();
    moved.consumer_hash = "cn".to_owned();
    moved.node_quota_hash = String::new();
    assert_ne!(Ok(&hash), moved.settlement_hash(&billing).as_ref());
    let mut repriced = snapshot();
    repriced.vram_cost_micro += 1;
    assert_ne!(Ok(&hash), fields().settlement_hash(&repriced).as_ref());
    let keys: Vec<String> = [
        SettlementLine::Consumer,
        SettlementLine::NodeQuota,
        SettlementLine::Contribution,
        SettlementLine::Reserve,
    ]
    .into_iter()
    .map(|line| line.key(Uuid::from_u128(2)))
    .collect();
    for (at, key) in keys.iter().enumerate() {
        assert!(key.contains(&Uuid::from_u128(2).text()));
        assert!(!keys[..at].contains(key));
    }
}

#[test]
fn results_are_stored_as_their_mode_says() {
    let id = Uuid::from_u128(1);
    let (opaque, version) = protect_result(&KEY, id, "regulated", "envelope").expect("kept");
    assert_eq!(opaque, "envelope");
    assert_eq!(version, None);
    let (sealed, version) = protect_result(&KEY, id, "standard", "cmVzdWx0").expect("sealed");
    assert_ne!(sealed, "cmVzdWx0");
    assert_eq!(version, Some(1));
    assert_eq!(protect_result(&KEY, id, "other", "x"), Err(ApiError::Internal));
    assert_eq!(protect_result(&KEY, id, "standard", ""), Err(ApiError::Internal));
}

#[test]
fn outcomes_are_read_from_their_receipt() {
    let row = |verdict: &str, alerts| ReceiptRow {
        receipt_id: Uuid::from_u128(1),
        base_cost_micro: 1,
        user_deduction_micro: 2,
        node_quota_micro: 3,
        contribution_micro: 4,
        contribution_weight_ppm: 5,
        reserve_micro: 6,
        settlement_hash: "h".to_owned(),
        verdict: verdict.to_owned(),
        evidence_kind: "worker".to_owned(),
        telemetry_alert_count: alerts,
    };
    let outcome = load_outcome(row("warning", 2), Uuid::from_u128(9), true).expect("valid");
    assert_eq!(outcome.telemetry_verdict, ExecutionTelemetryVerdict::Warning);
    assert_eq!(outcome.telemetry_alert_count, 2);
    assert!(outcome.idempotent_replay);
    assert!(load_outcome(row("unknown", 0), Uuid::from_u128(9), false).is_err());
    assert!(load_outcome(row("warning", -1), Uuid::from_u128(9), false).is_err());
    assert_eq!(parse_telemetry_verdict("critical"), Ok(ExecutionTelemetryVerdict::Critical));
}

#[test]
fn receipts_are_told_the_same_every_time() {
    let plan = plan_settlement(CALCULATED, Some(1_000_000), 500_000, balances()).expect("covered");
    let receipt = || {
        receipt_of(
            Uuid::from_u128(7),
            "h".to_owned(),
            1_000,
            CALCULATED,
            plan,
            TelemetryConclusion {
                verdict: ExecutionTelemetryVerdict::NoAnomalyObserved,
                alert_count: 3,
                evidence_kind: "worker".to_owned(),
            },
        )
    };
    assert_eq!(receipt().verdict, "no_anomaly_observed");
    let first = load_outcome(receipt(), Uuid::from_u128(9), false).expect("told");
    let again = load_outcome(receipt(), Uuid::from_u128(9), true).expect("told");
    assert!(!first.idempotent_replay && again.idempotent_replay);
    for outcome in [&first, &again] {
        assert_eq!(outcome.receipt_id, Uuid::from_u128(7));
        assert_eq!(outcome.base_cost_micro, 1_000);
        assert_eq!(outcome.user_deduction_micro, 1_500);
        assert_eq!(outcome.node_quota_micro, 1_000);
        assert_eq!(outcome.contribution_micro, 450);
        assert_eq!(outcome.contribution_weight_ppm, 500_000);
        assert_eq!(outcome.reserve_micro, 200);
        assert_eq!(outcome.settlement_hash, "h");
        assert_eq!(outcome.telemetry_verdict, ExecutionTelemetryVerdict::NoAnomalyObserved);
        assert_eq!(outcome.telemetry_alert_count, 3);
    }
}

#[test]
fn accounts_are_locked_once_each() {
    let (low, high) = (Uuid::from_u128(1), Uuid::from_u128(2));
    assert_eq!(accounts_to_lock(high, low), vec![high, low]);
    assert_eq!(accounts_to_lock(low, low), vec![low]);
    assert_eq!(check_locked_accounts(2, 2), Ok(()));
    assert!(check_locked_accounts(1, 2).is_err());
}

#[test]
fn releases_are_validated_and_fingerprinted() {
    assert_eq!(validate_reserve_release_command(&release_command()), Ok(()));
    for amount in [0, -1, 1_000_000_000_001] {
        let mut command = release_command();
        command.amount_micro = amount;
        assert!(validate_reserve_release_command(&command).is_err());
    }
    let mut unnamed = release_command();
    unnamed.operator_id = "bad operator".to_owned();
    assert!(validate_reserve_release_command(&unnamed).is_err());
    let mut unexplained = release_command();
    unexplained.reason = "补偿失败重试".to_owned();
    assert!(validate_reserve_release_command(&unexplained).is_err());
    assert!(valid_operator_identifier("operator-1"));
    assert!(!valid_operator_identifier(""));
    let first = reserve_release_request_fingerprint(&release_command()).expect("hashed");
    let mut other = release_command();
    other.reason = "补偿另一次失败重试".to_owned();
    assert_eq!(first.len(), 64);
    assert_ne!(first, reserve_release_request_fingerprint(&other).expect("hashed"));
    assert_eq!(reserve_entry_type(ReservePurpose::FailedRetry), "retry");
}

#[test]
fn releases_are_replayed_exactly() {
    let fingerprint = reserve_release_request_fingerprint(&release_command()).expect("hashed");
    let existing = || ExistingRelease {
        release_id: Uuid::from_u128(1),
        entry_type: "retry".to_owned(),
        delta_micro: -1_000,
        balance_before_micro: 5_000,
        balance_after_micro: 4_000,
        audit_reference: Some("incident-1".to_owned()),
        entry_hash: "h".to_owned(),
        operator_audit_id: Some(Uuid::from_u128(2)),
        request_fingerprint: Some(fingerprint.clone()),
    };
    let replayed = replay_release(release_command(), &fingerprint, existing()).expect("the same");
    assert!(replayed.idempotent_replay);
    assert_eq!(replayed.balance_after_micro, 4_000);
    let mut other = existing();
    other.delta_micro = -999;
    assert!(replay_release(release_command(), &fingerprint, other).is_err());
    let mut explained = release_command();
    explained.reason = "补偿另一次失败的重试".to_owned();
    let changed = reserve_release_request_fingerprint(&explained).expect("hashed");
    assert_eq!(
        replay_release(explained, &changed, existing()).err(),
        Some(ApiError::conflict(
            "idempotency_key_reused",
            "准备金幂等键已经用于不同释放请求"
        ))
    );
}

#[test]
fn releases_never_overdraw_the_reserve() {
    let entry = release_reserve(
        &release_command(),
        5_000,
        ReserveAnswer::Released { balance_after_micro: 4_000 },
    )
    .expect("covered");
    assert_eq!(entry.delta_micro, -1_000);
    assert_eq!(entry.balance_before_micro, 5_000);
    assert_eq!(entry.balance_after_micro, 4_000);
    assert!(release_reserve(&release_command(), 999, ReserveAnswer::InsufficientBalance).is_err());
    assert!(release_reserve(&release_command(), 5_000, ReserveAnswer::Failed).is_err());
}

#[test]
fn texts_are_hashed_as_utf8() {
    assert_eq!(
        sha256_hex(""),
        "e3b0c44298fc1c149afbf4c8996fb92427ae41e4649b934ca495991b7852b855"
    );
}
