use ed25519_dalek::{Signer, SigningKey};
use mindone_coordinator::auth::{
    answer_poll, auth_device_poll, check_flow, decode_lower_hex, device_status, flow_timing,
    initial_grant, judge_signature, map_provider_error, new_refresh_challenge, plan_completion,
    plan_poll, refresh_challenge, require_point, validate_device_public_key,
    verify_device_key_proof, verify_refresh_key_proof, CompletionStep, DeviceFlow, KeyProof,
    LogoutRequest, LogoutScope, PollAnswer, PollProof, PollStep, ProofPurpose, ProviderError,
    ProviderPoll, DEVICE_PUBLIC_KEY_BYTES,
};
use mindone_coordinator::error::ApiError;
use mindone_coordinator::ids::Uuid;
use mindone_coordinator::nodes::TrustLevel;
use sha2::{Digest, Sha256};

const NOW: i128 = 1_700_000_000_000_000_000;
const SECOND: i128 = 1_000_000_000;
const CHALLENGE_BYTES: usize = 32;

fn fingerprint_of(public_key: &[u8]) -> String {
    hex::encode(Sha256::digest(public_key))
}

fn login_message(flow_id: Uuid, challenge: &[u8], public_key: &[u8]) -> Vec<u8> {
    let mut message = b"login\0".to_vec();
    message.extend_from_slice(flow_id.text().as_bytes());
    message.extend_from_slice(challenge);
    message.extend_from_slice(public_key);
    message
}

fn renewal_message(challenge: &[u8], token: &str, public_key: &[u8]) -> Vec<u8> {
    let mut message = b"renewal\0".to_vec();
    message.extend_from_slice(challenge);
    message.extend_from_slice(token.as_bytes());
    message.extend_from_slice(public_key);
    message
}

fn key_proof<'a>(
    public_key: &'a str,
    fingerprint: &'a str,
    challenge: &'a str,
    signature: &'a str,
    message: &'a [u8],
) -> KeyProof<'a> {
    KeyProof {
        public_key,
        fingerprint,
        algorithm: "ed25519",
        supported_algorithm: "ed25519",
        challenge,
        challenge_bytes: CHALLENGE_BYTES,
        signature,
        derived_fingerprint: fingerprint,
        message,
    }
}

#[test]
fn possession_proof_binds_private_key_flow_and_canonical_fingerprint() {
    let signing_key = SigningKey::from_bytes(&[7_u8; DEVICE_PUBLIC_KEY_BYTES]);
    let public_key_bytes = signing_key.verifying_key().to_bytes();
    let public_key = hex::encode(public_key_bytes);
    let fingerprint = fingerprint_of(&public_key_bytes);
    let challenge_bytes = [9_u8; CHALLENGE_BYTES];
    let challenge = hex::encode(challenge_bytes);
    let flow_id = Uuid::from_u128(11);
    let message = login_message(flow_id, &challenge_bytes, &public_key_bytes);
    let signature = hex::encode(signing_key.sign(&message).to_bytes());

    assert!(verify_device_key_proof(&key_proof(
        &public_key,
        &fingerprint,
        &challenge,
        &signature,
        &message,
    ))
    .is_ok());
    let other_flow = login_message(Uuid::from_u128(12), &challenge_bytes, &public_key_bytes);
    assert!(verify_device_key_proof(&key_proof(
        &public_key,
        &fingerprint,
        &challenge,
        &signature,
        &other_flow,
    ))
    .is_err());
    assert!(validate_device_public_key(&public_key.to_ascii_uppercase()).is_err());
    assert_eq!(validate_device_public_key(&public_key), Ok(public_key_bytes));
}

#[test]
fn refresh_proof_binds_token_challenge_and_private_key() {
    let signing_key = SigningKey::from_bytes(&[7_u8; DEVICE_PUBLIC_KEY_BYTES]);
    let public_key_bytes = signing_key.verifying_key().to_bytes();
    let public_key = hex::encode(public_key_bytes);
    let fingerprint = fingerprint_of(&public_key_bytes);
    let challenge_bytes = [9_u8; CHALLENGE_BYTES];
    let challenge = hex::encode(challenge_bytes);
    let refresh_token = "mnr_current";
    let message = renewal_message(&challenge_bytes, refresh_token, &public_key_bytes);
    let signature = hex::encode(signing_key.sign(&message).to_bytes());

    assert!(verify_refresh_key_proof(&key_proof(
        &public_key,
        &fingerprint,
        &challenge,
        &signature,
        &message,
    ))
    .is_ok());
    let stolen = renewal_message(&challenge_bytes, "mnr_stolen_replacement", &public_key_bytes);
    assert!(verify_refresh_key_proof(&key_proof(
        &public_key,
        &fingerprint,
        &challenge,
        &signature,
        &stolen,
    ))
    .is_err());
    let other_bytes = [10_u8; CHALLENGE_BYTES];
    let other_challenge = hex::encode(other_bytes);
    let other_message = renewal_message(&other_bytes, refresh_token, &public_key_bytes);
    assert!(verify_refresh_key_proof(&key_proof(
        &public_key,
        &fingerprint,
        &other_challenge,
        &signature,
        &other_message,
    ))
    .is_err());
}

#[test]
fn proofs_are_refused_part_by_part() {
    let signing_key = SigningKey::from_bytes(&[7_u8; DEVICE_PUBLIC_KEY_BYTES]);
    let public_key_bytes = signing_key.verifying_key().to_bytes();
    let public_key = hex::encode(public_key_bytes);
    let fingerprint = fingerprint_of(&public_key_bytes);
    let challenge = hex::encode([9_u8; CHALLENGE_BYTES]);
    let message = login_message(Uuid::from_u128(11), &[9_u8; CHALLENGE_BYTES], &public_key_bytes);
    let signature = hex::encode(signing_key.sign(&message).to_bytes());

    let mut other_algorithm = key_proof(&public_key, &fingerprint, &challenge, &signature, &message);
    other_algorithm.algorithm = "rsa";
    assert!(verify_device_key_proof(&other_algorithm).is_err());
    let mut other_fingerprint = key_proof(&public_key, &fingerprint, &challenge, &signature, &message);
    other_fingerprint.derived_fingerprint = "other";
    assert!(verify_device_key_proof(&other_fingerprint).is_err());
    let short = "ab".repeat(CHALLENGE_BYTES - 1);
    assert!(verify_device_key_proof(&key_proof(
        &public_key,
        &fingerprint,
        &short,
        &signature,
        &message
    ))
    .is_err());
    assert!(verify_device_key_proof(&key_proof(
        &public_key,
        &fingerprint,
        &challenge,
        "zz",
        &message
    ))
    .is_err());
    let refused = verify_device_key_proof(&key_proof(
        &public_key,
        &fingerprint,
        &challenge,
        &"00".repeat(64),
        &message,
    ));
    assert_eq!(refused, judge_signature(ProofPurpose::Login, true, false));
    assert_eq!(judge_signature(ProofPurpose::Refresh, true, true), Ok(()));
    assert_ne!(
        judge_signature(ProofPurpose::Login, false, true),
        judge_signature(ProofPurpose::Refresh, false, true)
    );
}

#[test]
fn keys_must_be_points_of_the_curve() {
    assert_eq!(require_point([1_u8; 32], true), Ok([1_u8; 32]));
    assert!(require_point([1_u8; 32], false).is_err());
    let mut off_curve = [0_u8; 32];
    off_curve[0] = 2;
    assert!(validate_device_public_key(&hex::encode(off_curve)).is_err());
    assert!(validate_device_public_key("ab").is_err());
}

#[test]
fn hex_is_read_in_one_spelling() {
    assert_eq!(decode_lower_hex("00ff", 2), Some(vec![0, 255]));
    assert_eq!(decode_lower_hex("00FF", 2), None);
    assert_eq!(decode_lower_hex("00ff", 3), None);
    assert_eq!(decode_lower_hex("0g", 1), None);
    assert_eq!(decode_lower_hex("", 0), Some(Vec::new()));
}

#[test]
fn renewal_challenges_are_random_hex() {
    assert_eq!(refresh_challenge(&[0, 171]), "00ab");
    let first = new_refresh_challenge(32).expect("randomness");
    let second = new_refresh_challenge(32).expect("randomness");
    assert_eq!(first.len(), 64);
    assert_ne!(first, second);
    assert!(decode_lower_hex(&first, 32).is_some());
}

#[test]
fn logging_out_ends_the_device_where_there_is_one() {
    assert_eq!(
        LogoutRequest::revoked(Uuid::from_u128(1), Some(Uuid::from_u128(2))),
        LogoutScope::Device { device_key_id: Uuid::from_u128(2) }
    );
    assert_eq!(
        LogoutRequest::revoked(Uuid::from_u128(1), None),
        LogoutScope::Session { session_id: Uuid::from_u128(1) }
    );
}

#[test]
fn failures_of_the_service_are_not_told() {
    assert_eq!(
        map_provider_error(ProviderError { message: "down".to_owned() }),
        ApiError::unavailable("auth_provider_unavailable", "认证提供者当前不可用")
    );
}

#[test]
fn flows_are_timed_within_bounds() {
    let timing = flow_timing(NOW, 600, 5).expect("ten minutes fit");
    assert_eq!(timing.expires_at, NOW + 600 * SECOND);
    assert_eq!(timing.interval_seconds, 5);
    assert!(flow_timing(NOW, u64::MAX, 5).is_err());
    assert!(flow_timing(NOW, 600, u64::MAX).is_err());
}

#[test]
fn flows_belong_to_the_present_service_and_are_open() {
    assert_eq!(check_flow("github", "github", "pending"), Ok(()));
    assert_eq!(
        check_flow("github", "email", "pending"),
        Err(ApiError::conflict("auth_provider_changed", "认证提供者已经变更，请重新发起登录"))
    );
    assert_eq!(
        check_flow("github", "github", "denied"),
        Err(ApiError::conflict(
            "device_flow_completed",
            "设备登录流程已经结束，请重新发起登录"
        ))
    );
}

#[test]
fn polls_keep_their_distance() {
    assert_eq!(plan_poll(NOW, NOW, 5, None), PollStep::Expire);
    assert_eq!(plan_poll(NOW, NOW + 1, 5, None), PollStep::Ask);
    assert_eq!(plan_poll(NOW, NOW + 1, 5, Some(NOW - 5 * SECOND + 1)), PollStep::Wait);
    assert_eq!(plan_poll(NOW, NOW + 1, 5, Some(NOW - 5 * SECOND)), PollStep::Ask);
}

#[test]
fn answers_of_the_service_are_followed() {
    assert_eq!(answer_poll(ProviderPoll::Pending, 5), PollAnswer::Pending { interval: 5 });
    assert_eq!(answer_poll(ProviderPoll::SlowDown, 5), PollAnswer::SlowDown { interval: 10 });
    assert_eq!(
        answer_poll(ProviderPoll::SlowDown, i32::MAX - 1),
        PollAnswer::SlowDown { interval: i32::MAX }
    );
    assert_eq!(
        answer_poll(ProviderPoll::Denied, 5),
        PollAnswer::End {
            status: "denied",
            error: ApiError::authentication("用户拒绝了设备登录")
        }
    );
    assert_eq!(
        answer_poll(ProviderPoll::Expired, 5),
        PollAnswer::End {
            status: "expired",
            error: ApiError::authentication("设备验证码已经过期")
        }
    );
    assert_eq!(answer_poll(ProviderPoll::Authorized, 5), PollAnswer::Complete);
}

#[test]
fn a_flow_is_completed_once_and_in_time() {
    assert_eq!(plan_completion("pending", NOW + 1, NOW), Ok(CompletionStep::Complete));
    assert_eq!(plan_completion("pending", NOW, NOW), Ok(CompletionStep::Expire));
    assert!(plan_completion("authorized", NOW + 1, NOW).is_err());
}

#[test]
fn only_new_development_accounts_are_given_quota() {
    assert_eq!(initial_grant(true, 100, true), Some(100));
    assert_eq!(initial_grant(true, 100, false), None);
    assert_eq!(initial_grant(false, 100, true), None);
    assert_eq!(initial_grant(true, -1, true), None);
}

#[test]
fn devices_are_never_trusted_for_their_nodes() {
    let status = device_status(true, false, 2, &Some("enhanced".to_owned())).expect("valid");
    assert_eq!(status.trust_level, TrustLevel::Unverified);
    assert_eq!(status.device_key_revoked, Some(false));
    assert_eq!(status.registered_nodes, 2);
    assert_eq!(status.best_node_trust_level, Some(TrustLevel::Enhanced));
    assert_eq!(device_status(false, true, 0, &None).expect("valid").device_key_revoked, None);
    assert!(device_status(true, false, -1, &None).is_err());
    assert!(device_status(true, false, 0, &Some("trusted".to_owned())).is_err());
}

#[test]
fn polling_a_flow_takes_all_its_columns_and_a_signature() {
    let signing_key = SigningKey::from_bytes(&[7_u8; DEVICE_PUBLIC_KEY_BYTES]);
    let public_key_bytes = signing_key.verifying_key().to_bytes();
    let public_key = hex::encode(public_key_bytes);
    let fingerprint = fingerprint_of(&public_key_bytes);
    let challenge = hex::encode([9_u8; CHALLENGE_BYTES]);
    let message = login_message(Uuid::from_u128(11), &[9_u8; CHALLENGE_BYTES], &public_key_bytes);
    let signature = hex::encode(signing_key.sign(&message).to_bytes());
    let poll = PollProof {
        signature: &signature,
        supported_algorithm: "ed25519",
        challenge_bytes: CHALLENGE_BYTES,
        derived_fingerprint: &fingerprint,
        message: &message,
    };
    let flow = |challenge| DeviceFlow {
        provider: "github",
        status: "pending",
        expires_at: NOW + 60 * SECOND,
        interval_seconds: 5,
        last_polled_at: None,
        device_public_key: Some(&public_key),
        device_key_fingerprint: Some(&fingerprint),
        device_key_algorithm: Some("ed25519"),
        device_key_challenge: challenge,
    };
    assert_eq!(
        auth_device_poll(&Some(flow(Some(challenge.as_str()))), "github", &poll, NOW),
        Ok(PollStep::Ask)
    );
    assert_eq!(
        auth_device_poll(&Some(flow(None)), "github", &poll, NOW),
        Err(ApiError::authentication("设备登录流程缺少持有证明挑战，请重新发起登录"))
    );
    assert_eq!(
        auth_device_poll(&None, "github", &poll, NOW),
        Err(ApiError::not_found("设备登录流程"))
    );
    assert!(auth_device_poll(&Some(flow(Some(challenge.as_str()))), "email", &poll, NOW).is_err());
    let mut without_key = flow(Some(challenge.as_str()));
    without_key.device_public_key = None;
    assert_eq!(
        auth_device_poll(&Some(without_key), "github", &poll, NOW),
        Err(ApiError::authentication("设备登录流程缺少密钥绑定，请重新发起登录"))
    );
}
