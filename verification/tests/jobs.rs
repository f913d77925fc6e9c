use mindone_coordinator::billing::{BillingQuote, JobBillingSnapshot};
use mindone_coordinator::error::ApiError;
use mindone_coordinator::ids::Uuid;
use mindone_coordinator::jobs::{
    assess_job_creation, attempts_allowed, attestation_provider_from_db, authorize_view,
    billing_profile_unavailable, check_claiming_node, check_existing_job, check_renewing_node,
    claim_job, confidentiality_from_db, create_job_authenticated, decode_requested_payload,
    decode_payload_for_result, decode_result,
    decode_standard_payload, decode_stored_standard_payload, instance_can_be_leased, job_error_class_key,
    job_fail, job_status_from_db, lease_not_renewable, map_anti_abuse_error, next_attempt,
    payload_encoding_from_db, place_standard_job, plan_renewal, reap_expired_terminal_lease,
    reap_invalid_regulated_job, renew_job, required_context, reserve_quota, stable_job_error_class,
    validate_create_job, validate_job_result, validate_reported_usage, validate_standard_result,
    visible_result, work_item_kind, AntiAbuseError, AttestationProvider, BillingSnapshot,
    CandidateJob, ClaimJobResponse, ConfidentialityMode, CreateJobRequest, CreatedJob,
    CreationFacts, FailingJob,
    FailureAnswer, FailureStep, InferenceResponse, JobErrorClass, JobFailRequest, JobStatus,
    PayloadEncoding, ReapedJob, Renewal, RenewalStep, ReportedFailure, StandardLimits, Usage,
    ValidatedStandardJob, WorkItemKind,
};
use mindone_coordinator::policy::PolicyDecision;
use mindone_coordinator::selection::SelectedModel;
use mindone_coordinator::standard_data::{
    decrypt_from_storage, encrypt_for_storage, request_fingerprint, StorageDirection,
};
use mindone_coordinator::streams::{Endpoint, StreamTranscript};

const NOW: i128 = 1_700_000_000_000_000_000;
const SECOND: i128 = 1_000_000_000;
const KEY: [u8; 32] = [5; 32];

#[test]
fn claim_response_zeroizes_owned_payload_and_tee_key() {
    let mut response = ClaimJobResponse {
        job_id: Uuid::from_u128(1),
        model_instance_id: Uuid::from_u128(2),
        model: "model".to_owned(),
        model_weights_hash: "11".repeat(32),
        encrypted_payload: "private-prompt-payload".to_owned(),
        payload_encoding: PayloadEncoding::Base64,
        tags: Vec::new(),
        estimated_input_tokens: 1,
        max_output_tokens: 1,
        attempt: 1,
        lease_expires_at: 0,
        policy_check_required_before_execution: true,
        confidentiality: ConfidentialityMode::Regulated,
        regulated_route_id: Some(Uuid::from_u128(3)),
        attestation_report_id: Some(Uuid::from_u128(4)),
        attestation_provider: Some(AttestationProvider::AmdSevSnp),
        tee_public_key: Some("private-ephemeral-key".to_owned()),
    };

    response.zeroize_owned();

    assert!(response.encrypted_payload.is_empty());
    assert_eq!(response.tee_public_key.as_deref(), Some(""));
}

fn create_request() -> CreateJobRequest {
    CreateJobRequest {
        virtual_model: "m".to_owned(),
        encrypted_payload: "e30=".to_owned(),
        payload_encoding: PayloadEncoding::Base64,
        estimated_input_tokens: 10,
        max_output_tokens: 20,
    }
}

fn limits() -> StandardLimits {
    StandardLimits {
        model: "m".to_owned(),
        minimum_input_tokens: 10,
        maximum_output_tokens: 20,
        stream: true,
    }
}

fn candidate(confidentiality: &str) -> CandidateJob {
    let job_id = Uuid::from_u128(1);
    let sealed =
        encrypt_for_storage(&KEY, job_id, StorageDirection::Payload, b"e30=").expect("sealed");
    CandidateJob {
        job_id,
        model_instance_id: Uuid::from_u128(2),
        model_name: "m".to_owned(),
        weights_hash: "w".to_owned(),
        encrypted_payload: sealed,
        payload_encoding: "base64".to_owned(),
        standard_payload_storage_version: Some(1),
        tags: vec!["chat".to_owned()],
        estimated_input_tokens: 10,
        max_output_tokens: 20,
        attempt_count: 1,
        confidentiality: confidentiality.to_owned(),
        regulated_route_id: None,
        attestation_report_id: None,
        attestation_provider: None,
        tee_public_key: None,
    }
}

fn failure_report(retryable: bool) -> JobFailRequest {
    JobFailRequest {
        node_id: Uuid::from_u128(2),
        idempotency_key: "key".to_owned(),
        error_class: JobErrorClass::Timeout,
        error_message: "too late".to_owned(),
        retryable,
    }
}

fn failing_job(attempt_count: i32) -> FailingJob {
    FailingJob {
        node_user_id: Uuid::from_u128(3),
        leased_to_node_id: Uuid::from_u128(2),
        claim_device_bound: true,
        status: "leased".to_owned(),
        lease_is_valid: true,
        attempt_count,
        max_attempts: 3,
        reserved_cost_micro: 40,
        account_reserved_micro: 100,
    }
}

#[test]
fn names_survive_storage() {
    assert_eq!(payload_encoding_from_db("base64url"), Ok(PayloadEncoding::Base64Url));
    assert!(payload_encoding_from_db("hex").is_err());
    assert_eq!(confidentiality_from_db("regulated"), Ok(ConfidentialityMode::Regulated));
    assert!(confidentiality_from_db("secret").is_err());
    assert_eq!(job_status_from_db("cancelled"), Ok(JobStatus::Cancelled));
    assert!(job_status_from_db("lost").is_err());
    assert_eq!(attestation_provider_from_db("intel_tdx"), Ok(AttestationProvider::IntelTdx));
    assert!(attestation_provider_from_db("other").is_err());
    let key = job_error_class_key(JobErrorClass::ResourceExhausted);
    assert_eq!(
        stable_job_error_class(&Some(key.to_owned())),
        Some(JobErrorClass::ResourceExhausted)
    );
    assert_eq!(
        stable_job_error_class(&Some("novel".to_owned())),
        Some(JobErrorClass::Internal)
    );
    assert_eq!(stable_job_error_class(&None), None);
}

#[test]
fn identifiers_stand_for_one_thing() {
    assert_eq!(work_item_kind(true, false), Ok(WorkItemKind::Ordinary));
    assert_eq!(work_item_kind(false, true), Ok(WorkItemKind::Hidden));
    assert_eq!(work_item_kind(false, false), Ok(WorkItemKind::Missing));
    assert_eq!(work_item_kind(true, true), Err(ApiError::Internal));
}

#[test]
fn payloads_are_decoded_as_they_are_written() {
    assert_eq!(decode_standard_payload(PayloadEncoding::Base64, "_-8="), decode_standard_payload(
        PayloadEncoding::Base64,
        "!"
    ));
    assert_eq!(decode_standard_payload(PayloadEncoding::Base64, "/+8="), Ok(vec![255, 239]));
    assert_eq!(decode_standard_payload(PayloadEncoding::Base64Url, "_-8"), Ok(vec![255, 239]));
    assert!(decode_standard_payload(PayloadEncoding::RegulatedAeadV1, "e30=").is_err());
    assert_eq!(decode_requested_payload(&create_request()), Ok(b"{}".to_vec()));
    let mut regulated = create_request();
    regulated.payload_encoding = PayloadEncoding::RegulatedAeadV1;
    assert_eq!(
        decode_requested_payload(&regulated),
        Err(ApiError::bad_request(
            "invalid_job",
            "Regulated envelope 必须使用独立的两阶段接口"
        ))
    );
    let stored = candidate("standard").encrypted_payload;
    assert_eq!(
        decode_stored_standard_payload(&KEY, Uuid::from_u128(1), Some(1), &stored, "base64"),
        Ok(b"{}".to_vec())
    );
    assert!(
        decode_stored_standard_payload(&KEY, Uuid::from_u128(1), Some(0), &stored, "base64")
            .is_err()
    );
    let for_result = |version, encoding| {
        decode_payload_for_result(&KEY, Uuid::from_u128(1), version, &stored, encoding)
    };
    assert_eq!(for_result(Some(1), "base64"), Ok(b"{}".to_vec()));
    assert_eq!(for_result(Some(0), "base64"), Err(ApiError::Internal));
    assert_eq!(for_result(Some(1), "regulated_aead_v1"), Err(ApiError::Internal));
    assert_eq!(for_result(Some(1), "other"), Err(ApiError::Internal));
    assert_eq!(
        for_result(Some(1), "base64url"),
        Err(ApiError::bad_request("invalid_standard_payload", "任务载荷 Base64 无效"))
    );
    assert!(matches!(
        decode_stored_standard_payload(
            &KEY,
            Uuid::from_u128(1),
            Some(1),
            &stored,
            "regulated_aead_v1"
        ),
        Err(ApiError::BadRequest { code: "invalid_job", .. })
    ));
    assert_eq!(decode_result("e30="), Ok(b"{}".to_vec()));
    assert!(decode_result("?").is_err());
}

#[test]
fn requests_authorise_what_their_payload_needs() {
    let validated =
        validate_create_job(&create_request(), &limits(), &KEY, b"{\"a\":1}").expect("enough");
    assert!(validated.stream);
    assert_eq!(
        Ok(validated.request_fingerprint.clone()),
        request_fingerprint(&KEY, b"{\"a\":1}")
    );
    assert_eq!(
        check_existing_job(
            &Some(validated.request_fingerprint.clone()),
            &validated.request_fingerprint
        ),
        Ok(())
    );
    assert!(check_existing_job(&None, &validated.request_fingerprint).is_err());
    let mut other = limits();
    other.model = "n".to_owned();
    assert_eq!(
        validate_create_job(&create_request(), &other, &KEY, b"{}").err(),
        Some(ApiError::bad_request(
            "model_binding_mismatch",
            "任务路由模型与推理载荷模型不一致"
        ))
    );
    let mut larger = limits();
    larger.maximum_output_tokens = 21;
    assert_eq!(
        validate_create_job(&create_request(), &larger, &KEY, b"{}").err(),
        Some(ApiError::bad_request(
            "usage_authorization_too_small",
            "任务 Token 授权小于载荷声明所需的安全上限"
        ))
    );
}

#[test]
fn jobs_are_placed_within_the_quota() {
    assert_eq!(reserve_quota(100, 40, 60), Ok(100));
    assert_eq!(reserve_quota(100, 40, 61), Err(ApiError::InsufficientQuota));
    let id = Uuid::from_u128(7);
    let placed =
        place_standard_job(&KEY, id, &create_request(), false, 60, 100, 40, 2).expect("covered");
    assert_eq!(placed.reserved_after_micro, 100);
    assert_eq!(placed.max_attempts, 3);
    assert_eq!(
        decrypt_from_storage(&KEY, id, StorageDirection::Payload, &placed.stored_payload),
        Ok(b"e30=".to_vec())
    );
    assert_eq!(
        place_standard_job(&KEY, id, &create_request(), false, 61, 100, 40, 2).err(),
        Some(ApiError::InsufficientQuota)
    );
    assert_eq!(attempts_allowed(true, 5), 1);
    assert_eq!(attempts_allowed(false, -1), 1);
    assert_eq!(attempts_allowed(false, i32::MAX), i32::MAX);
}

#[test]
fn results_are_shown_to_the_consumer() {
    let (consumer, node) = (Uuid::from_u128(1), Uuid::from_u128(2));
    assert_eq!(authorize_view(consumer, consumer, None), Ok(()));
    assert_eq!(authorize_view(node, consumer, Some(node)), Ok(()));
    assert!(authorize_view(Uuid::from_u128(3), consumer, Some(node)).is_err());
    let sealed = encrypt_for_storage(&KEY, consumer, StorageDirection::Result, b"cmVz")
        .expect("sealed");
    assert_eq!(
        visible_result(&KEY, consumer, true, "standard", Some(sealed.clone()), Some(1)),
        Ok(Some("cmVz".to_owned()))
    );
    assert_eq!(
        visible_result(&KEY, consumer, false, "standard", Some(sealed.clone()), Some(1)),
        Ok(None)
    );
    assert_eq!(
        visible_result(&KEY, consumer, true, "regulated", Some("opaque".to_owned()), None),
        Ok(Some("opaque".to_owned()))
    );
    assert!(visible_result(&KEY, consumer, true, "standard", Some(sealed), None).is_err());
}

#[test]
fn nodes_claim_and_renew_in_their_states() {
    assert_eq!(check_claiming_node("online"), Ok(()));
    assert!(check_claiming_node("paused").is_err());
    assert_eq!(check_renewing_node("draining"), Ok(()));
    assert!(check_renewing_node("offline").is_err());
    assert!(instance_can_be_leased(false, &Some("published".to_owned())));
    assert!(!instance_can_be_leased(true, &Some("published".to_owned())));
    assert!(!instance_can_be_leased(false, &None));
    assert_eq!(next_attempt(0), 1);
    assert_eq!(next_attempt(i32::MAX), i32::MAX);
    assert_eq!(plan_renewal(Some(true), "standard", false), Ok(RenewalStep::Renew));
    assert_eq!(plan_renewal(Some(true), "regulated", false), Ok(RenewalStep::TerminateLease));
    assert_eq!(plan_renewal(Some(false), "standard", true), Err(lease_not_renewable()));
    assert_eq!(plan_renewal(None, "standard", true), Err(lease_not_renewable()));
}

#[test]
fn claimed_jobs_carry_their_payload_in_the_clear() {
    let published = Some("published".to_owned());
    let claim = claim_job(&KEY, candidate("standard"), false, &published, 60, NOW)
        .expect("readable")
        .expect("leased");
    assert_eq!(claim.encrypted_payload, "e30=");
    assert_eq!(claim.attempt, 2);
    assert_eq!(claim.lease_expires_at, NOW + 60 * SECOND);
    assert_eq!(claim.confidentiality, ConfidentialityMode::Standard);
    assert!(claim.policy_check_required_before_execution);
    let stored = candidate("regulated");
    let expected = stored.encrypted_payload.clone();
    let opaque =
        claim_job(&KEY, stored, false, &published, 60, NOW).expect("readable").expect("leased");
    assert_eq!(opaque.encrypted_payload, expected);
    assert!(claim_job(&KEY, candidate("standard"), true, &published, 60, NOW)
        .expect("no work")
        .is_none());
    assert!(claim_job(&KEY, candidate("standard"), false, &None, 60, NOW)
        .expect("no work")
        .is_none());
    assert!(claim_job(&[6; 32], candidate("standard"), false, &published, 60, NOW).is_err());
    let mut unknown = candidate("standard");
    unknown.attestation_provider = Some("other".to_owned());
    assert_eq!(
        claim_job(&KEY, unknown, false, &published, 60, NOW).err(),
        Some(ApiError::Internal)
    );
    assert_eq!(
        claim_job(&KEY, candidate("standard"), true, &published, u64::MAX, NOW).err(),
        Some(ApiError::Internal)
    );
}

#[test]
fn failed_attempts_are_retried_or_end_the_job() {
    let worker = Uuid::from_u128(3);
    let report = |retryable, job: Option<FailingJob>| {
        job_fail(&failure_report(retryable), worker, &None, &job, NOW)
    };
    assert_eq!(
        report(true, Some(failing_job(1))),
        Ok(FailureAnswer::New(FailureStep::Retry { available_at: NOW + 2 * SECOND }))
    );
    assert_eq!(
        report(true, Some(failing_job(3))),
        Ok(FailureAnswer::New(FailureStep::Fail { account_reserved_after_micro: 60 }))
    );
    assert_eq!(
        report(false, Some(failing_job(1))),
        Ok(FailureAnswer::New(FailureStep::Fail { account_reserved_after_micro: 60 }))
    );
    assert_eq!(report(true, None), Err(ApiError::not_found("任务")));
    let mut late = failing_job(1);
    late.lease_is_valid = false;
    assert_eq!(
        report(true, Some(late)),
        Err(ApiError::conflict("lease_expired", "任务租约已经过期"))
    );
    let mut ended = failing_job(1);
    ended.status = "failed".to_owned();
    assert_eq!(
        report(true, Some(ended)),
        Err(ApiError::conflict("job_not_leased", "任务当前不接受失败报告"))
    );
    let mut many = failing_job(50);
    many.max_attempts = 100;
    assert_eq!(
        report(true, Some(many)),
        Ok(FailureAnswer::New(FailureStep::Retry { available_at: NOW + 60 * SECOND }))
    );
}

#[test]
fn failure_reports_are_replayed_exactly() {
    let worker = Uuid::from_u128(3);
    let existing = |message: &str| {
        Some(ReportedFailure {
            node_id: Uuid::from_u128(2),
            node_user_id: worker,
            claim_device_bound: true,
            error_class: Some(job_error_class_key(JobErrorClass::Timeout).to_owned()),
            error_message: Some(message.to_owned()),
            retryable_requested: Some(true),
        })
    };
    assert_eq!(
        job_fail(&failure_report(true), worker, &existing("too late"), &None, NOW),
        Ok(FailureAnswer::Replay)
    );
    assert_eq!(
        job_fail(&failure_report(true), worker, &existing("other"), &None, NOW),
        Err(ApiError::conflict(
            "idempotency_binding_mismatch",
            "失败报告幂等键已绑定到不同节点或失败内容"
        ))
    );
    assert_eq!(
        job_fail(&failure_report(true), Uuid::from_u128(9), &existing("too late"), &None, NOW),
        Err(ApiError::forbidden("任务租约不属于当前节点"))
    );
}

#[test]
fn reported_usage_is_what_the_response_says() {
    let usage = Usage { prompt_tokens: 4, completion_tokens: 6, total_tokens: 10 };
    assert_eq!(validate_reported_usage(usage, 4, 6), Ok(()));
    assert!(validate_reported_usage(usage, 5, 6).is_err());
    assert!(validate_reported_usage(usage, -4, 6).is_err());
    let odd = Usage { total_tokens: 11, ..usage };
    assert!(validate_reported_usage(odd, 4, 6).is_err());
    let response = |model: &str, text: Option<&str>| {
        Some(InferenceResponse {
            choices: 1,
            model: model.to_owned(),
            first_text: text.map(str::to_owned),
            usage,
        })
    };
    let check = |response| {
        validate_standard_result(Endpoint::ChatCompletions, &response, "m", 4, 6)
    };
    assert_eq!(check(response("m", Some("hi"))), Ok(()));
    assert!(check(response("n", Some("hi"))).is_err());
    assert!(check(None).is_err());
}

#[test]
fn streamed_results_need_their_whole_transcript() {
    let transcript = StreamTranscript {
        event_count: 3,
        first_sequence: 0,
        last_sequence: 2,
        done_count: 1,
        done_sequence: 2,
    };
    assert_eq!(validate_job_result("standard", true, 1, transcript), Ok(()));
    let open = StreamTranscript { done_count: 0, done_sequence: -1, ..transcript };
    assert!(validate_job_result("standard", true, 1, open).is_err());
    assert_eq!(validate_job_result("standard", false, 3, open), Ok(()));
}

fn frozen() -> JobBillingSnapshot {
    JobBillingSnapshot {
        contract_version: "server_reference_upper_bound_v1".to_owned(),
        profile_id: Uuid::from_u128(1),
        profile_version: 1,
        profile_fingerprint: "1".repeat(64),
        model_weights_hash: "2".repeat(64),
        reference_hardware_class: "nvidia-l4".to_owned(),
        profile_evidence_hash: "3".repeat(64),
        profile_valid_from: 0,
        profile_valid_until: 1,
        profile_max_input_tokens: 4_096,
        profile_max_output_tokens: 1_024,
        fixed_gpu_time_us: 1,
        gpu_time_us_per_1k_tokens: 1,
        reference_vram_mib: 1,
        token_rate_micro_per_1k: 1,
        gpu_rate_micro_per_second: 1,
        vram_rate_micro_per_gib_second: 1,
        authorized_input_tokens: 40,
        authorized_max_output_tokens: 10,
        billable_tokens: 1,
        reference_gpu_time_us: 2,
        reference_vram_mib_microseconds: 3,
        token_cost_micro: 4,
        gpu_cost_micro: 5,
        vram_cost_micro: 6,
        base_cost_micro: 15,
    }
}

#[test]
fn frozen_billing_is_read_back_whole() {
    let quote = BillingQuote {
        billable_tokens: 1,
        reference_gpu_time_us: 2,
        reference_vram_mib_microseconds: 3,
        token_cost_micro: 4,
        gpu_cost_micro: 5,
        vram_cost_micro: 6,
        base_cost_micro: 15,
    };
    let weights = "2".repeat(64);
    let read = BillingSnapshot::from_frozen_row(frozen(), &weights, Some(quote), Some(23))
        .expect("priced");
    assert_eq!(read.reservation_micro, 23);
    assert_eq!(read.authorized_input_tokens, 40);
    let refused = Some(billing_profile_unavailable());
    assert_eq!(
        BillingSnapshot::from_frozen_row(frozen(), "other", Some(quote), Some(23)).err(),
        refused
    );
    let dearer = BillingQuote { base_cost_micro: 16, ..quote };
    assert!(BillingSnapshot::from_frozen_row(frozen(), &weights, Some(dearer), Some(23)).is_err());
    assert!(BillingSnapshot::from_frozen_row(frozen(), &weights, Some(quote), None).is_err());
}

#[test]
fn contexts_saturate() {
    assert_eq!(required_context(3, 4), 7);
    assert_eq!(required_context(i32::MAX, 1), i32::MAX);
    assert_eq!(required_context(i32::MIN, -1), i32::MIN);
}

#[test]
fn abuse_stops_the_creation_of_jobs() {
    assert_eq!(assess_job_creation(Ok(true)), Ok(()));
    assert_eq!(assess_job_creation(Ok(false)), Err(ApiError::AntiAbuseBlocked));
    for failure in [
        AntiAbuseError::IdempotencyConflict,
        AntiAbuseError::MissingDeviceBinding,
        AntiAbuseError::Database,
        AntiAbuseError::InvalidInput,
    ] {
        assert_eq!(assess_job_creation(Err(failure)), Err(map_anti_abuse_error(failure)));
    }
}

#[test]
fn reaped_jobs_give_their_reservation_back() {
    let job = |node| ReapedJob {
        regulated_node_id: node,
        attempt_count: 2,
        reserved_cost_micro: 40,
        account_reserved_micro: 100,
    };
    assert_eq!(reap_expired_terminal_lease(&job(None)), Ok(60));
    assert_eq!(
        reap_invalid_regulated_job(&job(Some(Uuid::from_u128(3)))),
        Ok((Uuid::from_u128(3), 3, 60))
    );
    assert!(reap_invalid_regulated_job(&job(None)).is_err());
}

fn creation_facts() -> CreationFacts {
    let quote = BillingQuote {
        billable_tokens: 1,
        reference_gpu_time_us: 2,
        reference_vram_mib_microseconds: 3,
        token_cost_micro: 4,
        gpu_cost_micro: 5,
        vram_cost_micro: 6,
        base_cost_micro: 15,
    };
    let weights = "2".repeat(64);
    CreationFacts {
        existing: None,
        assessment: Ok(true),
        speed_problem: None,
        billing: BillingSnapshot::from_frozen_row(frozen(), &weights, Some(quote), Some(23)).ok(),
        selected: Ok(SelectedModel { id: Uuid::from_u128(9), weights_hash: weights }),
        spendable_micro: 100,
        reserved_micro: 40,
    }
}

#[test]
fn jobs_are_created_once_for_each_key() {
    let id = Uuid::from_u128(7);
    let validated =
        ValidatedStandardJob { request_fingerprint: "print".to_owned(), stream: false };
    let create =
        |facts: CreationFacts| create_job_authenticated(&KEY, id, &create_request(), &validated, facts, 2);
    match create(creation_facts()) {
        Ok(CreatedJob::Queued { model_id, reservation_micro, placed }) => {
            assert_eq!(model_id, Uuid::from_u128(9));
            assert_eq!(reservation_micro, 23);
            assert_eq!(placed.reserved_after_micro, 63);
            assert_eq!(placed.max_attempts, 3);
        }
        _ => panic!("the job is covered"),
    }
    let mut facts = creation_facts();
    facts.existing = Some(Some("print".to_owned()));
    facts.spendable_micro = 0;
    assert!(matches!(create(facts), Ok(CreatedJob::Replay)));
    let mut facts = creation_facts();
    facts.existing = Some(Some("other".to_owned()));
    assert!(matches!(create(facts), Err(ApiError::Conflict { .. })));
    let mut facts = creation_facts();
    facts.assessment = Ok(false);
    assert!(matches!(create(facts), Err(ApiError::AntiAbuseBlocked)));
    let mut facts = creation_facts();
    facts.speed_problem = Some("no such speed".to_owned());
    assert!(matches!(create(facts), Err(ApiError::BadRequestReason { code: "invalid_job", .. })));
    let mut facts = creation_facts();
    facts.selected = Err(ApiError::unavailable("no_routable_model", "没有满足条件的在线模型"));
    assert!(matches!(create(facts), Err(ApiError::Unavailable { .. })));
    let mut facts = creation_facts();
    facts.billing = None;
    assert_eq!(create(facts).err(), Some(billing_profile_unavailable()));
    let mut facts = creation_facts();
    facts.reserved_micro = 78;
    assert_eq!(create(facts).err(), Some(ApiError::InsufficientQuota));
}

#[test]
fn leases_are_renewed_within_the_policy() {
    let renew = |status: &str, bound: Option<bool>, mode: &str, decision: Option<PolicyDecision>| {
        renew_job(status, bound, mode, false, decision, NOW, 60)
    };
    assert_eq!(
        renew("online", Some(true), "standard", Some(PolicyDecision::Accept)),
        Ok(Renewal::Renewed { lease_expires_at: NOW + 60 * SECOND })
    );
    assert_eq!(
        renew("online", Some(true), "regulated", Some(PolicyDecision::Accept)),
        Ok(Renewal::Terminated)
    );
    assert_eq!(
        renew("offline", Some(true), "standard", Some(PolicyDecision::Accept)),
        Err(ApiError::policy_rejected("节点策略当前暂停执行"))
    );
    assert_eq!(
        renew("paused", None, "standard", Some(PolicyDecision::Accept)),
        Err(lease_not_renewable())
    );
    assert_eq!(
        renew("online", Some(true), "standard", Some(PolicyDecision::PauseTemperature)),
        Err(ApiError::policy_rejected("GPU 温度达到节点阈值"))
    );
    assert_eq!(renew("online", Some(true), "standard", None), Err(ApiError::internal()));
}
