use mindone_coordinator::attestation::{
    apply_verdict, attestation_rejected, authorize_submission, check_attested_instance, check_challenge_request,
    conclude, evaluate_claims, evidence_digest, evidence_kind_db, issue_nonce, key_origin_db,
    key_origin_from_db, new_nonce, reason_before_verification, resource_binding_current,
    submit_attestation, AttestationKeyOrigin, ChallengeAnswer, HardwareAttestationConfig,
    Verification, VerificationClaims, MAX_EVIDENCE_BYTES,
};
use mindone_coordinator::error::ApiError;
use mindone_coordinator::ids::Uuid;
use mindone_coordinator::jobs::AttestationProvider;
use mindone_coordinator::regulated::AttestationEvidenceKind;

const NOW: i128 = 1_700_000_000_000_000_000;
const HOUR: i128 = 3_600_000_000_000;

fn policy(measurement: &str) -> HardwareAttestationConfig {
    HardwareAttestationConfig {
        deployable: true,
        allowed_policy_hashes: vec!["11".repeat(32)],
        allowed_runtime_hashes: vec!["22".repeat(32)],
        allowed_tee_measurements: vec![measurement.to_owned()],
    }
}

fn claims(now: i128) -> VerificationClaims {
    VerificationClaims {
        verifier_name: "known-test-vector".to_owned(),
        provider: AttestationProvider::AmdSevSnp,
        evidence_kind: AttestationEvidenceKind::SnpExtendedReport,
        verified: true,
        report_data: "33".repeat(64),
        tee_measurement: "44".repeat(48),
        signature_verified: true,
        certificate_chain_verified: true,
        tcb_current: true,
        collateral_current: true,
        collateral_expires_at: now + HOUR,
    }
}

fn answer() -> ChallengeAnswer {
    ChallengeAnswer {
        challenge_provider: AttestationProvider::AmdSevSnp,
        challenge_expires_at: NOW + 60_000_000_000,
        policy_hash: "11".repeat(32),
        runtime_hash: "22".repeat(32),
        provider: Some(AttestationProvider::AmdSevSnp),
        evidence_kind: AttestationEvidenceKind::SnpExtendedReport,
        resource_binding_current: true,
    }
}

fn verdict_of(value: &VerificationClaims) -> &'static str {
    let configured = policy(&"44".repeat(48));
    evaluate_claims(
        value,
        AttestationProvider::AmdSevSnp,
        AttestationEvidenceKind::SnpExtendedReport,
        &"33".repeat(64),
        &configured,
        NOW,
    )
}

#[test]
fn verified_requires_every_server_checked_conclusion() {
    let now = NOW;
    let mut value = claims(now);
    let configured = policy(&value.tee_measurement);
    assert_eq!(
        evaluate_claims(
            &value,
            value.provider,
            value.evidence_kind,
            &value.report_data,
            &configured,
            now,
        ),
        "verified"
    );
    value.tcb_current = false;
    assert_eq!(
        evaluate_claims(
            &value,
            value.provider,
            value.evidence_kind,
            &value.report_data,
            &configured,
            now,
        ),
        "tcb_not_current"
    );
}

#[test]
fn wrong_report_data_and_stale_collateral_fail_closed() {
    let now = NOW;
    let mut value = claims(now);
    let configured = policy(&value.tee_measurement);
    assert_eq!(
        evaluate_claims(
            &value,
            value.provider,
            value.evidence_kind,
            &"55".repeat(64),
            &configured,
            now,
        ),
        "report_data_mismatch"
    );
    value.collateral_expires_at = now;
    assert_eq!(
        evaluate_claims(
            &value,
            value.provider,
            value.evidence_kind,
            &value.report_data,
            &configured,
            now,
        ),
        "collateral_not_current"
    );
}

#[test]
fn every_missing_conclusion_has_a_verdict_of_its_own() {
    let mut value = claims(NOW);
    value.provider = AttestationProvider::IntelTdx;
    assert_eq!(verdict_of(&value), "verifier_provider_mismatch");
    let mut value = claims(NOW);
    value.tee_measurement = "45".repeat(48);
    assert_eq!(verdict_of(&value), "tee_measurement_not_allowed");
    let mut value = claims(NOW);
    value.signature_verified = false;
    assert_eq!(verdict_of(&value), "signature_not_verified");
    let mut value = claims(NOW);
    value.certificate_chain_verified = false;
    assert_eq!(verdict_of(&value), "certificate_chain_not_verified");
    let mut value = claims(NOW);
    value.collateral_current = false;
    assert_eq!(verdict_of(&value), "collateral_not_current");
    let mut value = claims(NOW);
    value.verified = false;
    assert_eq!(verdict_of(&value), "verifier_rejected");
}

#[test]
fn challenge_requests_need_a_deployed_and_allowing_policy() {
    let policy_hash = "11".repeat(32);
    let runtime_hash = "22".repeat(32);
    let configured = Some(policy("m"));
    assert_eq!(check_challenge_request(&configured, &policy_hash, &runtime_hash), Ok(()));
    assert_eq!(
        check_challenge_request(&None, &policy_hash, &runtime_hash),
        Err(ApiError::attestation_failed("不支持该硬件证明提供者"))
    );
    let mut undeployed = policy("m");
    undeployed.deployable = false;
    assert!(matches!(
        check_challenge_request(&Some(undeployed), &policy_hash, &runtime_hash),
        Err(ApiError::AttestationUnavailable { .. })
    ));
    assert_eq!(
        check_challenge_request(&configured, &runtime_hash, &runtime_hash),
        Err(ApiError::attestation_failed(
            "当前沙盒策略或推理运行时不在服务器 Enhanced allowlist"
        ))
    );
}

#[test]
fn attested_instances_are_published_on_their_node() {
    let node = Uuid::from_u128(1);
    assert_eq!(check_attested_instance(node, "published", node), Ok(()));
    assert!(check_attested_instance(Uuid::from_u128(2), "published", node).is_err());
    assert!(check_attested_instance(node, "draining", node).is_err());
}

#[test]
fn nonces_are_encoded_hashed_and_timed() {
    let issued = issue_nonce(&[0_u8; 32], NOW, 60).expect("a minute fits");
    assert_eq!(issued.nonce, "A".repeat(43));
    assert_eq!(
        issued.nonce_hash,
        "66687aadf862bd776c8fc18b8e9f8e20089714856ee233b3902a591d0d5f2925"
    );
    assert_eq!(issued.expires_at, NOW + 60_000_000_000);
    assert_eq!(
        issue_nonce(&[0_u8; 32], NOW, u64::MAX).err(),
        Some(ApiError::Internal)
    );
    let (first, _) = new_nonce(NOW, 60).expect("randomness");
    let (second, _) = new_nonce(NOW, 60).expect("randomness");
    assert_ne!(first, second);
}

#[test]
fn evidence_is_bounded_base64() {
    assert_eq!(
        evidence_digest("YWJj"),
        Ok("ba7816bf8f01cfea414140de5dae2223b00361a396177a9cb410ff61f20015ad".to_owned())
    );
    assert_eq!(
        evidence_digest("not base64!"),
        Err(ApiError::attestation_failed("证明证据不是有效的标准 base64"))
    );
    assert_eq!(
        evidence_digest(""),
        Err(ApiError::attestation_failed("解码后的证明证据为空或超过 576 KiB"))
    );
    assert!(evidence_digest(&"A".repeat((MAX_EVIDENCE_BYTES + 3) / 3 * 4)).is_err());
    assert!(evidence_digest(&"A".repeat(MAX_EVIDENCE_BYTES / 3 * 4)).is_ok());
}

#[test]
fn key_origins_and_evidence_kinds_survive_storage() {
    for origin in [AttestationKeyOrigin::ControlSoftware, AttestationKeyOrigin::TeeRuntime] {
        assert_eq!(key_origin_from_db(key_origin_db(origin)), Ok(origin));
    }
    assert_eq!(key_origin_from_db("software"), Err(ApiError::Internal));
    assert_eq!(
        evidence_kind_db(AttestationEvidenceKind::SnpExtendedReport),
        "snp_extended_report"
    );
    assert_eq!(evidence_kind_db(AttestationEvidenceKind::TdxQuote), "tdx_quote");
}

#[test]
fn a_challenge_is_answered_once_by_its_own_account() {
    let owner = Uuid::from_u128(7);
    assert_eq!(authorize_submission(owner, owner, "pending", false), Ok(()));
    assert_eq!(
        authorize_submission(Uuid::from_u128(8), owner, "pending", false),
        Err(ApiError::forbidden("无权提交该远程证明挑战"))
    );
    let replay = Err(ApiError::conflict("attestation_replay", "远程证明挑战已消费，拒绝重放"));
    assert_eq!(authorize_submission(owner, owner, "verified", false), replay);
    assert_eq!(authorize_submission(owner, owner, "pending", true), replay);
}

#[test]
fn resources_must_still_be_those_of_the_challenge() {
    let node = Uuid::from_u128(1);
    let resource = |status: &str, weights: &str| Some((node, status.to_owned(), weights.to_owned()));
    assert!(resource_binding_current(&resource("published", "w"), node, "w"));
    assert!(!resource_binding_current(&resource("draining", "w"), node, "w"));
    assert!(!resource_binding_current(&resource("published", "v"), node, "w"));
    assert!(!resource_binding_current(&resource("published", "w"), Uuid::from_u128(2), "w"));
    assert!(!resource_binding_current(&None, node, "w"));
}

#[test]
fn evidence_is_not_verified_for_a_dead_or_changed_challenge() {
    let configured = policy("m");
    assert_eq!(reason_before_verification(&answer(), &configured, NOW), None);
    let mut late = answer();
    late.challenge_expires_at = NOW;
    assert_eq!(
        reason_before_verification(&late, &configured, NOW),
        Some("challenge_expired")
    );
    let mut other = answer();
    other.evidence_kind = AttestationEvidenceKind::TdxQuote;
    assert_eq!(
        reason_before_verification(&other, &configured, NOW),
        Some("provider_mismatch")
    );
    let mut unnamed = answer();
    unnamed.provider = None;
    assert_eq!(
        reason_before_verification(&unnamed, &configured, NOW),
        Some("provider_mismatch")
    );
    let mut changed = answer();
    changed.resource_binding_current = false;
    assert_eq!(
        reason_before_verification(&changed, &configured, NOW),
        Some("resource_binding_changed")
    );
    let mut unlisted = answer();
    unlisted.runtime_hash = "23".repeat(32);
    assert_eq!(
        reason_before_verification(&unlisted, &configured, NOW),
        Some("server_policy_unavailable")
    );
}

#[test]
fn trust_ends_with_the_collateral() {
    let value = claims(NOW);
    let verdict = conclude(Some(&value), "verified", NOW, NOW + 1, 7_200).expect("concluded");
    assert!(verdict.verified);
    assert_eq!(verdict.report_status, "verified");
    assert_eq!(verdict.report_expires_at, NOW + HOUR);
    let shorter = conclude(Some(&value), "verified", NOW, NOW + 1, 60).expect("concluded");
    assert_eq!(shorter.report_expires_at, NOW + 60_000_000_000);
    let expired = conclude(None, "challenge_expired", NOW, NOW - 5, 60).expect("concluded");
    assert_eq!(expired.report_status, "expired");
    assert_eq!(expired.report_expires_at, NOW - 5);
    assert_eq!(expired.verifier_name, "mindone-coordinator-fail-closed");
    assert_eq!(
        conclude(None, "verified", NOW, NOW + 1, u64::MAX).err(),
        Some(ApiError::Internal)
    );
}

#[test]
fn an_answer_earns_trust_only_with_verified_evidence() {
    let configured = policy(&"44".repeat(48));
    let expected = "33".repeat(64);
    let good = Verification::Concluded(claims(NOW));
    let (reason, verdict) =
        submit_attestation(&answer(), &configured, &expected, &good, NOW, 7_200).expect("concluded");
    assert_eq!(reason, "verified");
    assert!(verdict.verified);
    assert_eq!(verdict.tee_measurement.as_deref(), Some("44".repeat(48).as_str()));

    let failed = Verification::Failed { audit_code: "verifier_timeout".to_owned() };
    let (reason, verdict) =
        submit_attestation(&answer(), &configured, &expected, &failed, NOW, 7_200)
            .expect("concluded");
    assert_eq!(reason, "verifier_timeout");
    assert_eq!(verdict.report_status, "rejected");

    let mut late = answer();
    late.challenge_expires_at = NOW;
    let (reason, verdict) =
        submit_attestation(&late, &configured, &expected, &good, NOW, 7_200).expect("concluded");
    assert_eq!(reason, "challenge_expired");
    assert!(!verdict.verified);
    assert_eq!(verdict.tee_measurement, None);
}

#[test]
fn challenges_are_consumed_whatever_the_verdict() {
    let user = Uuid::from_u128(1);
    let value = claims(NOW);
    let good = conclude(Some(&value), "verified", NOW, NOW + 1, 60).expect("concluded");
    let (effects, answer) = apply_verdict(&good, "verified");
    assert_eq!(answer, Ok(NOW + 60_000_000_000));
    assert_eq!(effects.enhanced_until, Some(NOW + 60_000_000_000));
    let bad = conclude(None, "tcb_not_current", NOW, NOW + 1, 60).expect("concluded");
    let (rejected, answer) = apply_verdict(&bad, "tcb_not_current");
    assert_eq!(answer, Err(attestation_rejected("tcb_not_current")));
    assert_eq!(rejected.enhanced_until, None);
    assert_eq!(rejected.challenge_status, "rejected");
    for left in [effects, rejected] {
        assert_eq!(
            authorize_submission(user, user, left.challenge_status, left.challenge_consumed),
            Err(ApiError::conflict("attestation_replay", "远程证明挑战已消费，拒绝重放"))
        );
    }
}

#[test]
fn refusals_tell_their_reason() {
    assert_eq!(
        attestation_rejected("tcb_not_current"),
        ApiError::AttestationReason {
            detail: "硬件远程证明未通过服务端验证（tcb_not_current）".to_owned()
        }
    );
}
