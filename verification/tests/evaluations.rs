use mindone_coordinator::billing::sha256_hex;
use mindone_coordinator::bindings::{
    challenge_binding_hash, constant_time_equal, hex_digest, private_arbitration_scope_key,
    salted_commitment, submission_request_hash, ChallengeBindingInput, PrivateChallengeBinding,
    PrivateChallengeMetadata, PrivateEvaluationCommitmentDomain, PrivateV2Commitments,
    VerifiedPrivateEvaluationCatalog, PRIVATE_COMMITMENT_VERSION,
};
use mindone_coordinator::challenges::{
    generate_legacy_challenge, generate_public_canary, kind_name, new_public_canary, new_seed,
    parse_kind, prompt_has_no_private_marker, seed_of, GeneratedChallenge, PrivateEvaluationCatalogEntry,
    PrivateEvaluationKind, SensitiveEvaluationPayload,
};
use mindone_coordinator::chat::{
    ChatChoice, ChatCompletionsResponse, ContentPart, MessageContent,
};
use mindone_coordinator::definitions::{
    challenge_seed, lifecycle_snapshot_from_row, private_metadata_from_row,
    private_v2_commitments_from_row, required_commitment, verify_challenge_definition,
    verify_execution_binding_if_present, verify_server_commitments, AuthorizedChallenge,
    ChallengeRow, PrivateColumns,
};
use mindone_coordinator::error::ApiError;
use mindone_coordinator::evaluations::{
    authorize_terminal_mutation, available_private_entries, catalog_outlives_lease,
    classify_hidden_submission, complete_expired_failure, cooldown_seconds, draw_evaluation,
    draw_hits, draw_of, draw_private_entries, expire_hidden_job_if_needed, get_hidden_job_status,
    hidden_answer, insert_challenge_claim, judge_worker_failure, lease_is_expired,
    lease_not_renewable_error, maybe_claim_hidden_job, nonnegative_count, postgres_timestamp,
    private_budget_allows_claim, private_budget_snapshot_allows, private_comparison, renew_hidden_job,
    stored_challenge, submit_hidden_job_failure, submit_hidden_job_result,
    submitted_answer_matches, terminal_result_response, validate_and_extract_output,
    verify_terminal_authorization, HiddenClaimEvent, HiddenClaimStep, HiddenFailure,
    HiddenRenewal, HiddenSubmissionStep, IssueFacts, LeaseRow, PrivateBudgetCounts,
    PrivateBudgetSnapshot, PrivateEvaluationBudgetConfig, SubmissionKind,
    TerminalMutationAuthorization, Worker,
};
use mindone_coordinator::ids::Uuid;
use mindone_coordinator::jobs::{ConfidentialityMode, JobStatus, PayloadEncoding, Usage};
use mindone_coordinator::json::Json;

const NOW: i128 = 1_700_000_000_000_000_000;
const SECOND: i128 = 1_000_000_000;

fn commitments() -> PrivateV2Commitments {
    PrivateV2Commitments {
        catalog_statement: "01".repeat(32),
        catalog_id: "02".repeat(32),
        catalog_entry: "03".repeat(32),
        case_family: "04".repeat(32),
        evaluator_id: "05".repeat(32),
        evaluator_key: "06".repeat(32),
        prompt: "07".repeat(32),
        expected: "08".repeat(32),
        account: "09".repeat(32),
        device: "0a".repeat(32),
        node: "0b".repeat(32),
    }
}

fn no_private_columns() -> PrivateColumns {
    PrivateColumns {
        commitment_version: None,
        catalog_id: None,
        catalog_entry_id: None,
        case_family: None,
        catalog_commitment: None,
        evaluator_id: None,
        evaluator_key_fingerprint: None,
        catalog_valid_until: None,
        catalog_statement_commitment: None,
        catalog_id_commitment: None,
        catalog_entry_commitment: None,
        case_family_commitment: None,
        evaluator_id_commitment: None,
        evaluator_key_commitment: None,
        prompt_commitment: None,
        expected_commitment: None,
        account_commitment: None,
        device_commitment: None,
        node_commitment: None,
    }
}

fn committed_columns() -> PrivateColumns {
    let stored = commitments();
    let mut columns = no_private_columns();
    columns.commitment_version = Some(PRIVATE_COMMITMENT_VERSION);
    columns.catalog_valid_until = Some(NOW + 3_600 * SECOND);
    columns.catalog_statement_commitment = Some(stored.catalog_statement);
    columns.catalog_id_commitment = Some(stored.catalog_id);
    columns.catalog_entry_commitment = Some(stored.catalog_entry);
    columns.case_family_commitment = Some(stored.case_family);
    columns.evaluator_id_commitment = Some(stored.evaluator_id);
    columns.evaluator_key_commitment = Some(stored.evaluator_key);
    columns.prompt_commitment = Some(stored.prompt);
    columns.expected_commitment = Some(stored.expected);
    columns.account_commitment = Some(stored.account);
    columns.device_commitment = Some(stored.device);
    columns.node_commitment = Some(stored.node);
    columns
}

fn facts() -> IssueFacts {
    IssueFacts {
        challenge_id: Uuid::from_u128(1),
        model_id: Uuid::from_u128(2),
        model_instance_id: Uuid::from_u128(3),
        node_id: Uuid::from_u128(4),
        model_name: "model".to_owned(),
        model_weights_hash: "11".repeat(32),
        minimum_input_tokens: 128,
        maximum_output_tokens: 32,
        issued_at: NOW,
        lease_seconds: 60,
    }
}

/// What the database holds of a canary that was issued for `facts()`.
fn canary_row(seed: &[u8; 32]) -> ChallengeRow {
    let generated = generate_public_canary(seed);
    let (issued, _) = insert_challenge_claim(
        PrivateEvaluationKind::Canary,
        &facts(),
        &generated,
        seed,
        &[3_u8; 32],
        &b"{}".to_vec(),
        &None,
        &None,
    )
    .expect("a canary is issued");
    ChallengeRow {
        id: Uuid::from_u128(1),
        model_id: Uuid::from_u128(2),
        model_instance_id: Uuid::from_u128(3),
        node_id: Uuid::from_u128(4),
        challenge_kind: "canary".to_owned(),
        prompt_hash: issued.prompt_hash,
        expected_hash: issued.expected_hash,
        issued_at: NOW,
        model_weights_hash: Some("11".repeat(32)),
        current_model_weights_hash: "11".repeat(32),
        challenge_nonce_hash: Some(issued.challenge_nonce_hash),
        challenge_binding_hash: Some(issued.challenge_binding_hash),
        challenge_issued_expires_at: Some(issued.lease_expires_at),
        authorized_input_tokens: Some(128),
        authorized_max_output_tokens: Some(32),
        inference_seed: Some(i64::from(generated.inference_seed)),
        private: no_private_columns(),
    }
}

fn response(content: MessageContent) -> ChatCompletionsResponse {
    ChatCompletionsResponse {
        id: "id".to_owned(),
        object: "chat.completion".to_owned(),
        model: "auto".to_owned(),
        system_fingerprint: None,
        choices: vec![ChatChoice { content, name: None, tool_call_id: None }],
        usage: Usage { prompt_tokens: 12, completion_tokens: 3, total_tokens: 15 },
    }
}

fn said(text: &str) -> Option<ChatCompletionsResponse> {
    Some(response(MessageContent::Text(text.to_owned())))
}

fn worker() -> Worker {
    Worker {
        user_id: Uuid::from_u128(10),
        device_key_id: Uuid::from_u128(11),
        node_id: Uuid::from_u128(4),
        claim_device_bound: true,
    }
}

fn lease(status: &str) -> LeaseRow {
    LeaseRow {
        user_id: Uuid::from_u128(10),
        node_id: Uuid::from_u128(4),
        node_device_key_id: Some(Uuid::from_u128(11)),
        status: status.to_owned(),
        lease_expires_at: NOW + 60 * SECOND,
        worker_submission_kind: None,
        worker_idempotency_key: None,
        worker_request_hash: None,
        private_catalog_valid_until: None,
    }
}

fn entry(weights: &str) -> PrivateEvaluationCatalogEntry {
    PrivateEvaluationCatalogEntry {
        entry_id: "entry".to_owned(),
        case_family: "family".to_owned(),
        model_weights_sha256: weights.to_owned(),
        prompt: "prompt".to_owned(),
        expected_behavior_sha256: "a".repeat(64),
        inference_seed: 1,
        max_output_tokens: 16,
    }
}

#[test]
fn evaluation_payload_and_generated_challenge_zeroize_owned_secrets() {
    let mut payload = SensitiveEvaluationPayload {
        endpoint: "/v1/chat/completions".to_owned(),
        request: Json::Object(vec![
            (
                "messages".to_owned(),
                Json::Array(vec![Json::Object(vec![
                    ("role".to_owned(), Json::Text("user".to_owned())),
                    ("content".to_owned(), Json::Text("private prompt".to_owned())),
                ])]),
            ),
            (
                "nested".to_owned(),
                Json::Object(vec![(
                    "secret-key".to_owned(),
                    Json::Text("private response".to_owned()),
                )]),
            ),
        ]),
    };
    payload.zeroize_owned();
    assert!(payload.endpoint.is_empty());
    assert_eq!(payload.request, Json::Null);

    let mut generated = GeneratedChallenge {
        prompt: "private prompt".to_owned(),
        expected_behavior_sha256: "a".repeat(64),
        max_output_tokens: 32,
        temperature_tenths: 2,
        inference_seed: 99,
    };
    generated.zeroize();
    assert!(generated.prompt.is_empty());
    assert!(generated.expected_behavior_sha256.is_empty());
    assert_eq!(generated.max_output_tokens, 0);
    assert_eq!(generated.temperature_tenths, 0);
    assert_eq!(generated.inference_seed, 0);
}

#[test]
fn public_canary_prompts_are_randomized_natural_requests_without_markers() {
    for discriminator in 0..8_u8 {
        let mut seed = [7_u8; 32];
        seed[8] = discriminator;
        let generated = generate_public_canary(&seed);
        assert!(prompt_has_no_private_marker(&generated.prompt));
        assert_eq!(generated.expected_behavior_sha256.len(), 64);
    }
}

#[test]
fn private_behavior_fingerprint_rejects_fixed_response() {
    let expected = "目标权重的私有行为";
    let generated = GeneratedChallenge::from_private_entry(PrivateEvaluationCatalogEntry {
        entry_id: "entry-private-a".to_owned(),
        case_family: "family-private".to_owned(),
        model_weights_sha256: "a".repeat(64),
        prompt: "仅测试使用的私有探针".to_owned(),
        expected_behavior_sha256: sha256_hex(expected),
        inference_seed: 91,
        max_output_tokens: 32,
    });
    assert!(constant_time_equal(
        generated.expected_behavior_sha256.as_bytes(),
        sha256_hex(expected.trim()).as_bytes()
    ));
    assert!(!constant_time_equal(
        generated.expected_behavior_sha256.as_bytes(),
        hex_digest(b"fixed-response").as_bytes()
    ));
    assert_eq!(generated.prompt, "仅测试使用的私有探针");
    assert_eq!(generated.inference_seed, 91);
    assert_eq!(generated.max_output_tokens, 32);
}

#[test]
fn result_commitment_and_idempotency_hash_bind_full_submission() {
    let job_id = Uuid::from_u128(1);
    let first = salted_commitment(job_id, &[1_u8; 32], b"same output");
    let second = salted_commitment(job_id, &[2_u8; 32], b"same output");
    assert_ne!(first, second);
    assert!(constant_time_equal(first.as_bytes(), first.as_bytes()));
    assert!(!constant_time_equal(first.as_bytes(), second.as_bytes()));
}

#[test]
fn private_arbitration_scope_separates_evaluator_trust_domains() {
    let weights = "1".repeat(64);
    let first = private_arbitration_scope_key(1, &weights, &"2".repeat(64), "shared-family");
    let second = private_arbitration_scope_key(1, &weights, &"3".repeat(64), "shared-family");
    assert_ne!(first, second);
    assert_eq!(first.len(), 64);
    assert_ne!(
        first,
        private_arbitration_scope_key(2, &weights, &"2".repeat(64), "shared-family")
    );
}

#[test]
fn v2_failure_without_prepared_capability_stops_before_all_terminal_writes() {
    let mut challenge_terminal_writes = 0;
    let mut lifecycle_event_writes = 0;
    let mut arbitration_writes = 0;
    let result =
        authorize_terminal_mutation::<()>(Some(PRIVATE_COMMITMENT_VERSION), None).map(|_| {
            challenge_terminal_writes += 1;
            lifecycle_event_writes += 2;
            arbitration_writes += 1;
        });
    assert!(result.is_err());
    assert_eq!(challenge_terminal_writes, 0);
    assert_eq!(lifecycle_event_writes, 0);
    assert_eq!(arbitration_writes, 0);
}

#[test]
fn v2_expiry_without_prepared_capability_stops_before_events_and_arbitration() {
    let mut expired_event_writes = 0;
    let mut completed_event_writes = 0;
    let mut arbitration_writes = 0;
    let result =
        authorize_terminal_mutation::<()>(Some(PRIVATE_COMMITMENT_VERSION), None).map(|_| {
            expired_event_writes += 1;
            completed_event_writes += 1;
            arbitration_writes += 1;
        });
    assert!(result.is_err());
    assert_eq!(expired_event_writes, 0);
    assert_eq!(completed_event_writes, 0);
    assert_eq!(arbitration_writes, 0);
}

#[test]
fn legacy_terminal_mutation_remains_authorized_without_private_capability() {
    assert!(matches!(
        authorize_terminal_mutation::<()>(None, None),
        Ok(TerminalMutationAuthorization::Legacy)
    ));
}

#[test]
fn private_budget_caps_cooldown_and_reserve_fail_closed() {
    let budget = PrivateEvaluationBudgetConfig {
        catalog_hourly_limit: 10,
        account_hourly_limit: 4,
        device_hourly_limit: 3,
        node_hourly_limit: 2,
        cooldown_milliseconds: 60_000,
        global_reserve_entries: 2,
    };
    let allowed = PrivateBudgetSnapshot {
        catalog_hourly: 9,
        account_hourly: 3,
        device_hourly: 2,
        node_hourly: 1,
        identity_in_cooldown: false,
        remaining_catalog_entries: 3,
        account_seen_in_catalog: true,
        device_seen_in_catalog: true,
        node_seen_in_catalog: true,
    };
    assert!(private_budget_snapshot_allows(&budget, allowed));
    for denied in [
        PrivateBudgetSnapshot { catalog_hourly: 10, ..allowed },
        PrivateBudgetSnapshot { account_hourly: 4, ..allowed },
        PrivateBudgetSnapshot { device_hourly: 3, ..allowed },
        PrivateBudgetSnapshot { node_hourly: 2, ..allowed },
        PrivateBudgetSnapshot { identity_in_cooldown: true, ..allowed },
    ] {
        assert!(!private_budget_snapshot_allows(&budget, denied));
    }

    let reserve_boundary_for_new_identity = PrivateBudgetSnapshot {
        remaining_catalog_entries: 2,
        account_seen_in_catalog: false,
        device_seen_in_catalog: false,
        node_seen_in_catalog: false,
        ..allowed
    };
    assert!(private_budget_snapshot_allows(&budget, reserve_boundary_for_new_identity));
    assert!(!private_budget_snapshot_allows(
        &budget,
        PrivateBudgetSnapshot {
            account_seen_in_catalog: true,
            ..reserve_boundary_for_new_identity
        }
    ));
    let reserve_disabled = PrivateEvaluationBudgetConfig { global_reserve_entries: 0, ..budget };
    assert!(private_budget_snapshot_allows(
        &reserve_disabled,
        PrivateBudgetSnapshot {
            remaining_catalog_entries: 0,
            account_seen_in_catalog: true,
            device_seen_in_catalog: true,
            node_seen_in_catalog: true,
            ..allowed
        }
    ));
}

#[test]
fn v2_binding_separately_covers_initial_lease_and_catalog_validity() {
    let commitments = commitments();
    let issued_at = 10 * SECOND;
    let initial_lease = issued_at + 60 * SECOND;
    let catalog_validity = issued_at + 3_600 * SECOND;
    let binding = |initial_lease, catalog_validity| {
        challenge_binding_hash(&ChallengeBindingInput {
            challenge_id: Uuid::from_u128(1),
            model_id: Uuid::from_u128(2),
            model_instance_id: Uuid::from_u128(3),
            node_id: Uuid::from_u128(4),
            model_weights_hash: &"11".repeat(32),
            challenge_nonce_hash: &"12".repeat(32),
            prompt_binding: &commitments.prompt,
            expected_binding: &commitments.expected,
            issued_at,
            challenge_issued_expires_at: initial_lease,
            authorized_input_tokens: 128,
            authorized_max_output_tokens: 32,
            inference_seed: 7,
            private_binding: Some(PrivateChallengeBinding::V2 {
                commitments: &commitments,
                catalog_valid_until: catalog_validity,
            }),
        })
    };
    let original = binding(initial_lease, catalog_validity);
    assert_ne!(original, binding(initial_lease + SECOND, catalog_validity));
    assert_ne!(original, binding(initial_lease, catalog_validity + SECOND));
}

#[test]
fn lease_expiry_boundary_is_inclusive_only_for_leased_work() {
    let boundary = 30 * SECOND;
    assert!(!lease_is_expired("leased", boundary + 1, boundary));
    assert!(lease_is_expired("leased", boundary, boundary));
    assert!(lease_is_expired("leased", boundary - 1, boundary));
    assert!(!lease_is_expired("failed", boundary, boundary));
}

#[test]
fn kinds_survive_storage() {
    for kind in [PrivateEvaluationKind::HiddenBenchmark, PrivateEvaluationKind::Canary] {
        assert_eq!(parse_kind(kind_name(kind)), Ok(kind));
    }
    assert_eq!(parse_kind("benchmark"), Err(ApiError::Internal));
}

#[test]
fn seeds_make_exact_questions() {
    let mut seed = [7_u8; 32];
    seed[8] = 5;
    let canary = generate_public_canary(&seed);
    assert_eq!(canary.prompt, "将大写字符串 HHHHHHHH 转成小写后直接回复。");
    assert_eq!(canary.expected_behavior_sha256, sha256_hex("hhhhhhhh"));
    assert_eq!(canary.max_output_tokens, 24);
    assert_eq!(canary.temperature_tenths, 3);
    assert_eq!(canary.inference_seed, 0x0707_0707);
    let sum = generate_legacy_challenge(PrivateEvaluationKind::HiddenBenchmark, &[7_u8; 32]);
    assert_eq!(sum.prompt, "我只需要最终整数：把 2799 增加 2799 后是多少？");
    assert_eq!(sum.expected_behavior_sha256, sha256_hex("5598"));
    let payload = canary.standard_payload("served");
    assert_eq!(payload.endpoint, "/v1/chat/completions");
    assert_eq!(payload.model, "auto");
    assert_eq!(payload.content, canary.prompt);
    assert_eq!(payload.seed, 0x0707_0707);
}

#[test]
fn markers_are_found_in_any_case() {
    assert!(prompt_has_no_private_marker("请回复短码"));
    assert!(!prompt_has_no_private_marker("this is a CaNaRy"));
    assert!(!prompt_has_no_private_marker("Benchmark 7"));
}

#[test]
fn seeds_are_random() {
    assert_ne!(new_seed().expect("randomness"), new_seed().expect("randomness"));
    let (seed, canary) = new_public_canary().expect("randomness");
    assert_eq!(canary.prompt, generate_public_canary(&seed).prompt);
}

#[test]
fn random_bytes_make_draws_and_seeds() {
    assert_eq!(draw_of(&Some(vec![0x78, 0x56, 0x34, 0x12])), Ok(0x1234_5678));
    assert_eq!(draw_of(&Some(vec![255; 4])), Ok(u32::MAX));
    assert_eq!(draw_of(&Some(vec![1; 3])), Err(ApiError::Internal));
    assert_eq!(draw_of(&None), Err(ApiError::Internal));
    assert_eq!(seed_of(&Some(vec![9; 32])), Ok([9; 32]));
    assert_eq!(seed_of(&Some(vec![9; 31])), Err(ApiError::Internal));
    assert_eq!(seed_of(&None), Err(ApiError::Internal));
}

#[test]
fn digests_are_exact() {
    assert_eq!(
        hex_digest(b"abc"),
        "ba7816bf8f01cfea414140de5dae2223b00361a396177a9cb410ff61f20015ad"
    );
    assert_ne!(submission_request_hash("result", b"{}"), submission_request_hash("fail", b"{}"));
    assert_eq!(submission_request_hash("result", b"{}").len(), 64);
}

#[test]
fn catalogues_are_committed_to_value_by_value() {
    let catalog = VerifiedPrivateEvaluationCatalog {
        catalog_id: "catalog".to_owned(),
        catalog_commitment: "c".repeat(64),
        evaluator_id: "evaluator".to_owned(),
        evaluator_key_fingerprint: "e".repeat(64),
        valid_until: NOW,
    };
    let metadata = PrivateChallengeMetadata::from_catalog(&catalog, &entry("w"));
    assert_eq!(metadata.catalog_id, "catalog");
    assert_eq!(metadata.catalog_entry_id, "entry");
    assert_eq!(metadata.case_family, "family");
    assert_eq!(metadata.catalog_valid_until, NOW);
    let inputs = PrivateV2Commitments::inputs(
        &catalog,
        &entry("w"),
        Uuid::from_u128(1),
        Uuid::from_u128(2),
        Uuid::from_u128(3),
    );
    assert_eq!(inputs.len(), 11);
    assert_eq!(inputs[0].0, PrivateEvaluationCommitmentDomain::CatalogStatement);
    assert_eq!(inputs[10].1, Uuid::from_u128(3).text());
    let texts: Vec<String> = inputs.iter().map(|(_, value)| sha256_hex(value)).collect();
    let mut assembled = PrivateV2Commitments::assembled(&texts).expect("eleven commitments");
    assert_eq!(assembled.catalog_statement, texts[0]);
    assert_eq!(assembled.node, texts[10]);
    assembled.zeroize();
    assert!(assembled.node.is_empty());
    assert!(PrivateV2Commitments::assembled(&texts[..10].to_vec()).is_err());
    let mut metadata = metadata;
    metadata.zeroize();
    assert!(metadata.catalog_id.is_empty());
}

#[test]
fn terminal_rights_fit_their_challenges() {
    let v2 = TerminalMutationAuthorization::V2(());
    let legacy = TerminalMutationAuthorization::<()>::Legacy;
    assert_eq!(verify_terminal_authorization(Some(2), &v2), Ok(()));
    assert_eq!(verify_terminal_authorization(None, &legacy), Ok(()));
    assert_eq!(verify_terminal_authorization(None, &v2), Err(ApiError::Internal));
    assert_eq!(verify_terminal_authorization(Some(2), &legacy), Err(ApiError::Internal));
    assert!(authorize_terminal_mutation(Some(3), Some(())).is_err());
    assert!(authorize_terminal_mutation(Some(2), Some(())).is_ok());
}

#[test]
fn draws_hit_one_in_so_many() {
    assert!(!draw_hits(0, 0));
    assert!(draw_hits(1, 77));
    assert!(draw_hits(5, 10));
    assert!(!draw_hits(5, 11));
    assert_eq!(draw_evaluation(0), Ok(false));
    assert_eq!(draw_evaluation(1), Ok(true));
    assert_eq!(cooldown_seconds(60), Ok(60));
    assert_eq!(cooldown_seconds(u64::MAX), Err(ApiError::Internal));
}

#[test]
fn entries_are_offered_in_rotation() {
    let entries = vec![entry("w"), entry("v"), entry("w"), entry("w")];
    let all = available_private_entries(&entries, &vec![], "w", 0).expect("valid");
    assert_eq!(all.candidates, vec![0, 2, 3]);
    assert_eq!(all.remaining_catalog_entries, 4);
    let turned = available_private_entries(&entries, &vec![], "w", 4).expect("valid");
    assert_eq!(turned.candidates, vec![2, 3, 0]);
    let taken = available_private_entries(&entries, &vec![1, 2], "w", 0).expect("valid");
    assert_eq!(taken.candidates, vec![2, 3]);
    assert_eq!(taken.remaining_catalog_entries, 2);
    assert!(available_private_entries(&entries, &vec![5], "w", 0).is_err());
    assert!(available_private_entries(&entries, &vec![0], "w", 0).is_err());
    let drawn = draw_private_entries(&entries, &vec![], "w").expect("valid");
    assert_eq!(drawn.candidates.len(), 3);
}

#[test]
fn catalogues_must_outlive_their_leases() {
    assert!(catalog_outlives_lease(NOW, 60, NOW + 60 * SECOND + 1));
    assert!(!catalog_outlives_lease(NOW, 60, NOW));
}

#[test]
fn counts_and_times_are_stored_as_the_database_holds_them() {
    assert_eq!(nonnegative_count(3), Ok(3));
    assert_eq!(nonnegative_count(-1), Err(ApiError::Internal));
    assert_eq!(postgres_timestamp(1_234_567), 1_234_000);
    assert_eq!(stored_challenge(1, true), Ok(true));
    assert_eq!(stored_challenge(0, true), Ok(false));
    assert_eq!(stored_challenge(0, false), Err(ApiError::Internal));
}

#[test]
fn issued_challenges_look_like_jobs_and_are_recognised() {
    let seed = [7_u8; 32];
    let generated = generate_public_canary(&seed);
    let (issued, claim) = insert_challenge_claim(
        PrivateEvaluationKind::Canary,
        &facts(),
        &generated,
        &seed,
        &[3_u8; 32],
        &b"{}".to_vec(),
        &None,
        &None,
    )
    .expect("a canary is issued");
    assert_eq!(issued.encrypted_payload, "e30=");
    assert_eq!(issued.lease_expires_at, NOW + 60 * SECOND);
    assert_eq!(issued.lease_token_hash, hex_digest(&[3_u8; 32]));
    assert_eq!(claim.job_id, Uuid::from_u128(1));
    assert_eq!(claim.encrypted_payload, "e30=");
    assert_eq!(claim.payload_encoding, PayloadEncoding::Base64);
    assert_eq!(claim.confidentiality, ConfidentialityMode::Standard);
    assert_eq!(claim.attempt, 1);
    assert!(claim.tags.is_empty());

    let row = canary_row(&seed);
    assert!(verify_server_commitments(&row, &generated).is_ok());
    assert!(verify_execution_binding_if_present(&row, &seed).is_ok());
    let authorized =
        verify_challenge_definition(&row, PrivateEvaluationKind::Canary, &seed, &None)
            .expect("recognised");
    assert_eq!(authorized.model, "auto");
    assert_eq!(authorized.minimum_input_tokens, 128);
    let mut moved = canary_row(&seed);
    moved.node_id = Uuid::from_u128(5);
    assert!(verify_execution_binding_if_present(&moved, &seed).is_err());
    assert!(verify_challenge_definition(
        &row,
        PrivateEvaluationKind::HiddenBenchmark,
        &seed,
        &None
    )
    .is_err());
}

#[test]
fn benchmarks_come_with_their_catalogue() {
    let seed = [7_u8; 32];
    let generated = generate_public_canary(&seed);
    let metadata = || PrivateChallengeMetadata {
        catalog_id: "catalog".to_owned(),
        catalog_entry_id: "entry".to_owned(),
        case_family: "family".to_owned(),
        catalog_commitment: "c".repeat(64),
        evaluator_id: "evaluator".to_owned(),
        evaluator_key_fingerprint: "e".repeat(64),
        catalog_valid_until: NOW + 30 * SECOND,
    };
    let (issued, _) = insert_challenge_claim(
        PrivateEvaluationKind::HiddenBenchmark,
        &facts(),
        &generated,
        &seed,
        &[3_u8; 32],
        &b"{}".to_vec(),
        &Some(metadata()),
        &Some(commitments()),
    )
    .expect("a benchmark is issued");
    assert_eq!(issued.lease_expires_at, NOW + 30 * SECOND);
    assert_eq!(issued.prompt_hash, None);
    assert_eq!(issued.expected_hash, None);
    for (kind, with_metadata, with_commitments) in [
        (PrivateEvaluationKind::HiddenBenchmark, true, false),
        (PrivateEvaluationKind::HiddenBenchmark, false, false),
        (PrivateEvaluationKind::Canary, true, true),
    ] {
        let metadata = if with_metadata { Some(metadata()) } else { None };
        let commitments = if with_commitments { Some(commitments()) } else { None };
        assert!(insert_challenge_claim(
            kind,
            &facts(),
            &generated,
            &seed,
            &[3_u8; 32],
            &b"{}".to_vec(),
            &metadata,
            &commitments,
        )
        .is_err());
    }
}

#[test]
fn stored_columns_are_read_whole_or_not_at_all() {
    assert!(private_metadata_from_row(&no_private_columns()).expect("nothing").is_none());
    assert!(private_v2_commitments_from_row(&no_private_columns()).expect("nothing").is_none());
    let read = private_v2_commitments_from_row(&committed_columns())
        .expect("complete")
        .expect("committed");
    assert_eq!(read.prompt, "07".repeat(32));
    let mut partial = committed_columns();
    partial.node_commitment = None;
    assert!(private_v2_commitments_from_row(&partial).is_err());
    assert_eq!(required_commitment(&Some("ab".repeat(32))), Ok("ab".repeat(32)));
    assert_eq!(required_commitment(&Some("AB".repeat(32))), Err(ApiError::Internal));
    assert_eq!(required_commitment(&None), Err(ApiError::Internal));
    assert_eq!(challenge_seed(&Some(vec![1; 32])), Ok([1; 32]));
    assert_eq!(challenge_seed(&Some(vec![1; 31])), Err(ApiError::Internal));
    assert_eq!(challenge_seed(&None), Err(ApiError::Internal));
    let (prompt, events) = lifecycle_snapshot_from_row(&canary_row(&[7; 32])).expect("valid");
    assert!(prompt.is_some());
    assert!(events.is_none());
}

#[test]
fn only_the_worker_hands_in_and_only_once() {
    let judge = |row: &LeaseRow, worker: &Worker| {
        classify_hidden_submission(row, worker, SubmissionKind::Result, "key", "hash", NOW)
    };
    assert_eq!(judge(&lease("leased"), &worker()), Ok(HiddenSubmissionStep::Judge));
    let mut stranger = worker();
    stranger.claim_device_bound = false;
    assert_eq!(
        judge(&lease("leased"), &stranger),
        Err(ApiError::forbidden("任务租约不属于当前节点"))
    );
    assert_eq!(judge(&lease("expired"), &worker()), Ok(HiddenSubmissionStep::Ended));
    assert_eq!(
        judge(&lease("succeeded"), &worker()),
        Err(ApiError::conflict("job_not_leased", "任务当前不接受提交"))
    );
    let mut late = lease("leased");
    late.lease_expires_at = NOW;
    assert_eq!(judge(&late, &worker()), Ok(HiddenSubmissionStep::Expire));
    assert_eq!(expire_hidden_job_if_needed(&late, &worker(), NOW), Ok(true));
    let mut taken = lease("failed");
    taken.worker_submission_kind = Some("result".to_owned());
    taken.worker_idempotency_key = Some("key".to_owned());
    taken.worker_request_hash = Some("hash".to_owned());
    assert_eq!(judge(&taken, &worker()), Ok(HiddenSubmissionStep::Replay));
    assert_eq!(
        classify_hidden_submission(&taken, &worker(), SubmissionKind::Fail, "key", "hash", NOW),
        Err(ApiError::conflict(
            "idempotency_binding_mismatch",
            "任务幂等键已绑定到不同提交内容"
        ))
    );
    assert_eq!(terminal_result_response("failed"), Ok(JobStatus::Succeeded));
    assert!(terminal_result_response("leased").is_err());
}

#[test]
fn renewals_are_cut_off_by_the_catalogue() {
    assert_eq!(
        renew_hidden_job(&lease("leased"), &worker(), NOW, 90),
        Ok(HiddenRenewal::Renewed { lease_expires_at: NOW + 90 * SECOND })
    );
    let mut short = lease("leased");
    short.private_catalog_valid_until = Some(NOW + 70 * SECOND);
    assert_eq!(
        renew_hidden_job(&short, &worker(), NOW, 90),
        Ok(HiddenRenewal::Renewed { lease_expires_at: NOW + 70 * SECOND })
    );
    short.private_catalog_valid_until = Some(NOW);
    assert_eq!(renew_hidden_job(&short, &worker(), NOW, 90), Ok(HiddenRenewal::Expired));
    assert_eq!(
        renew_hidden_job(&lease("failed"), &worker(), NOW, 90),
        Err(lease_not_renewable_error())
    );
}

#[test]
fn owners_see_jobs_and_no_verdicts() {
    let owner = Uuid::from_u128(1);
    let shown = |status: &str, kind: Option<&str>| {
        get_hidden_job_status(owner, owner, status.to_owned(), &kind.map(str::to_owned))
    };
    assert_eq!(shown("failed", Some("result")), Ok("succeeded".to_owned()));
    assert_eq!(shown("succeeded", Some("result")), Ok("succeeded".to_owned()));
    assert_eq!(shown("expired", None), Ok("failed".to_owned()));
    assert_eq!(shown("leased", None), Ok("leased".to_owned()));
    assert!(get_hidden_job_status(Uuid::from_u128(2), owner, "leased".to_owned(), &None).is_err());
}

#[test]
fn answers_are_checked_before_they_are_judged() {
    let authorization = AuthorizedChallenge {
        model: "auto".to_owned(),
        minimum_input_tokens: 12,
        maximum_output_tokens: 3,
    };
    assert_eq!(
        validate_and_extract_output(&authorization, said(" yes "), 12, 3),
        Ok(" yes ".to_owned())
    );
    assert_eq!(
        validate_and_extract_output(&authorization, None, 12, 3),
        Err(ApiError::bad_request("invalid_job_result", "聊天任务结果不符合 OpenAI 响应协议"))
    );
    assert_eq!(
        validate_and_extract_output(&authorization, said("  "), 12, 3),
        Err(ApiError::bad_request("invalid_job_result", "聊天任务结果必须包含非空文本"))
    );
    let parts = response(MessageContent::Parts(vec![ContentPart::Text { text: "a".to_owned() }]));
    assert!(validate_and_extract_output(&authorization, Some(parts), 12, 3).is_err());
    let mut other_model = response(MessageContent::Text("yes".to_owned()));
    other_model.model = "other".to_owned();
    assert_eq!(
        validate_and_extract_output(&authorization, Some(other_model), 12, 3),
        Err(ApiError::bad_request(
            "model_binding_mismatch",
            "聊天任务结果模型与任务载荷不一致"
        ))
    );
    let mut empty = response(MessageContent::Text("yes".to_owned()));
    empty.choices.clear();
    assert!(validate_and_extract_output(&authorization, Some(empty), 12, 3).is_err());
    assert!(validate_and_extract_output(&authorization, said("yes"), 11, 3).is_err());
    let smaller = AuthorizedChallenge { maximum_output_tokens: 2, ..authorization };
    assert_eq!(
        validate_and_extract_output(&smaller, said("yes"), 12, 3),
        Err(ApiError::bad_request(
            "usage_exceeds_authorized_limit",
            "节点上报的 Token 使用量超过任务授权上限"
        ))
    );
}

#[test]
fn canaries_pass_with_the_expected_answer_alone() {
    let mut seed = [7_u8; 32];
    seed[8] = 5;
    let row = canary_row(&seed);
    let legacy = TerminalMutationAuthorization::<()>::Legacy;
    let stored = Some(seed.to_vec());
    let right = hidden_answer(&row, &stored, &None, said(" hhhhhhhh\n"), 12, 3).expect("answered");
    assert_eq!(right.answer, "hhhhhhhh");
    let passed =
        submit_hidden_job_result(&row, right, &legacy, None, "request").expect("judged");
    assert_eq!(passed.status, "succeeded");
    assert_eq!(passed.score_normalized, 1_000_000);
    assert_eq!(passed.reason_code, "answer_match");
    assert_eq!(passed.result_hash, salted_commitment(row.id, &seed, b"request"));
    let wrong = hidden_answer(&row, &stored, &None, said("HHHHHHHH"), 12, 3).expect("answered");
    let failed = submit_hidden_job_result(&row, wrong, &legacy, None, "request").expect("judged");
    assert_eq!(failed.status, "failed");
    assert_eq!(failed.score_normalized, 0);
    assert_eq!(failed.reason_code, "answer_mismatch");
    let mut unknown = canary_row(&seed);
    unknown.challenge_kind = "other".to_owned();
    assert_eq!(
        hidden_answer(&unknown, &stored, &None, said("hhhhhhhh"), 12, 3).err(),
        Some(ApiError::Internal)
    );
    assert_eq!(
        hidden_answer(&row, &None, &None, said("hhhhhhhh"), 12, 3).err(),
        Some(ApiError::Internal)
    );
}

#[test]
fn committed_answers_are_compared_under_their_capability() {
    let mut row = canary_row(&[7; 32]);
    row.private = committed_columns();
    let v2 = TerminalMutationAuthorization::V2(());
    assert_eq!(submitted_answer_matches(&row, "x", &v2, Some(true)), Ok(true));
    assert_eq!(submitted_answer_matches(&row, "x", &v2, Some(false)), Ok(false));
    assert_eq!(submitted_answer_matches(&row, "x", &v2, None), Err(ApiError::Internal));
    let legacy = TerminalMutationAuthorization::<()>::Legacy;
    assert_eq!(submitted_answer_matches(&row, "x", &legacy, Some(true)), Err(ApiError::Internal));
    let handed = private_comparison(&row, "x", &v2).expect("entitled").expect("compared");
    assert_eq!(hex::encode(&handed.normalized_digest), sha256_hex("x"));
    assert_eq!(Some(handed.expected_commitment), row.private.expected_commitment);
    assert_eq!(private_comparison(&row, "x", &legacy).err(), Some(ApiError::Internal));
    let public = canary_row(&[7; 32]);
    assert!(private_comparison(&public, "x", &legacy).expect("public").is_none());
}

#[test]
fn challenges_that_are_given_up_or_run_out_fail() {
    let id = Uuid::from_u128(1);
    let given_up = judge_worker_failure(id, &[7; 32], "request");
    assert_eq!(given_up.reason_code, "worker_failed");
    assert_eq!(given_up.score_normalized, 0);
    let legacy = TerminalMutationAuthorization::<()>::Legacy;
    let expired =
        complete_expired_failure(None, &legacy, id, &Some(vec![7; 32])).expect("entitled");
    assert_eq!(expired.reason_code, "lease_expired");
    assert_eq!(expired.result_hash, salted_commitment(id, &[7; 32], b"lease-expired"));
    assert!(complete_expired_failure(Some(2), &legacy, id, &Some(vec![7; 32])).is_err());
    assert!(complete_expired_failure(None, &legacy, id, &None).is_err());
}

#[test]
fn budgets_are_checked_on_what_the_database_counts() {
    let budget = PrivateEvaluationBudgetConfig {
        catalog_hourly_limit: 10,
        account_hourly_limit: 4,
        device_hourly_limit: 3,
        node_hourly_limit: 2,
        cooldown_milliseconds: 60_000,
        global_reserve_entries: 2,
    };
    let counts = PrivateBudgetCounts {
        catalog_hourly: 9,
        account_hourly: 3,
        device_hourly: 2,
        node_hourly: 1,
        identity_in_cooldown: false,
        remaining_catalog_entries: 3,
        account_seen_in_catalog: true,
        device_seen_in_catalog: true,
        node_seen_in_catalog: true,
    };
    assert_eq!(private_budget_allows_claim(&budget, counts), Ok(true));
    let full = PrivateBudgetCounts { node_hourly: 2, ..counts };
    assert_eq!(private_budget_allows_claim(&budget, full), Ok(false));
    let reserve = PrivateBudgetCounts { remaining_catalog_entries: 2, ..counts };
    assert_eq!(private_budget_allows_claim(&budget, reserve), Ok(false));
    let broken = PrivateBudgetCounts { device_hourly: -1, ..counts };
    assert_eq!(private_budget_allows_claim(&budget, broken), Err(ApiError::Internal));
    let endless = PrivateEvaluationBudgetConfig { cooldown_milliseconds: u64::MAX, ..budget };
    assert_eq!(private_budget_allows_claim(&endless, counts), Err(ApiError::Internal));
}

#[test]
fn claims_try_the_catalogue_before_the_canary() {
    let allowed = HiddenClaimEvent::Budget { allowed: true };
    let refused = HiddenClaimEvent::Budget { allowed: false };
    let stored = HiddenClaimEvent::Issued { stored: true };
    let taken = HiddenClaimEvent::Issued { stored: false };
    let gathered = HiddenClaimEvent::Gathered;
    assert_eq!(maybe_claim_hidden_job(0, 0, gathered), HiddenClaimStep::IssueCanary);
    assert_eq!(maybe_claim_hidden_job(2, 0, gathered), HiddenClaimStep::AskBudget { candidate: 0 });
    assert_eq!(maybe_claim_hidden_job(2, 1, allowed), HiddenClaimStep::IssuePrivate { candidate: 1 });
    assert_eq!(maybe_claim_hidden_job(2, 0, refused), HiddenClaimStep::IssueCanary);
    assert_eq!(maybe_claim_hidden_job(2, 0, stored), HiddenClaimStep::Done);
    assert_eq!(maybe_claim_hidden_job(2, 0, taken), HiddenClaimStep::AskBudget { candidate: 1 });
    assert_eq!(maybe_claim_hidden_job(2, 1, taken), HiddenClaimStep::IssueCanary);
}

#[test]
fn reported_failures_end_a_challenge_once() {
    let job_id = Uuid::from_u128(77);
    let seed = Some(vec![7u8; 32]);
    let no_capability: Option<u8> = None;
    let fail = |row: &LeaseRow, now: i128, version: Option<i32>, seed: &Option<Vec<u8>>| {
        submit_hidden_job_failure(
            row,
            &worker(),
            "key",
            "hash",
            now,
            job_id,
            version,
            no_capability,
            seed,
        )
    };
    match fail(&lease("leased"), NOW, None, &seed) {
        Ok(HiddenFailure::Judged(judgement)) => {
            assert_eq!(judgement.reason_code, "worker_failed");
            assert_eq!(judgement.score_normalized, 0);
            assert_eq!(judgement.result_hash, salted_commitment(job_id, &[7; 32], b"hash"));
        }
        _ => panic!("a live lease can fail"),
    }
    match fail(&lease("leased"), NOW + 60 * SECOND, None, &seed) {
        Ok(HiddenFailure::Expired(judgement)) => {
            assert_eq!(judgement.reason_code, "lease_expired");
            assert_eq!(
                judgement.result_hash,
                salted_commitment(job_id, &[7; 32], b"lease-expired")
            );
        }
        _ => panic!("an expired lease ends"),
    }
    assert!(matches!(fail(&lease("failed"), NOW, None, &seed), Ok(HiddenFailure::Ended)));
    let mut reported = lease("failed");
    reported.worker_submission_kind = Some("fail".to_owned());
    reported.worker_idempotency_key = Some("key".to_owned());
    reported.worker_request_hash = Some("hash".to_owned());
    assert!(matches!(fail(&reported, NOW, None, &seed), Ok(HiddenFailure::Replay)));
    reported.worker_request_hash = Some("other".to_owned());
    assert!(matches!(fail(&reported, NOW, None, &seed), Err(ApiError::Conflict { .. })));
    assert!(matches!(fail(&lease("leased"), NOW, None, &None), Err(ApiError::Internal)));
    assert!(matches!(fail(&lease("leased"), NOW, Some(2), &seed), Err(ApiError::Internal)));
}
