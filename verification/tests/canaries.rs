use mindone_coordinator::bindings::private_arbitration_scope_key;
use mindone_coordinator::canaries::{
    arbitrate, arbitration_scope, record_instance_canary_signal,
    record_private_authenticity_arbitration, ArbitrationVerdict, CanaryState, PreviousResults,
};
use mindone_coordinator::definitions::{ChallengeRow, PrivateColumns};
use mindone_coordinator::error::ApiError;
use mindone_coordinator::evaluations::TerminalMutationAuthorization;
use mindone_coordinator::ids::Uuid;

fn columns() -> PrivateColumns {
    PrivateColumns {
        commitment_version: None,
        catalog_id: None,
        catalog_entry_id: None,
        case_family: None,
        catalog_commitment: None,
        evaluator_id: None,
        evaluator_key_fingerprint: None,
        catalog_valid_until: None,
        catalog_statement_commitment: None,
        catalog_id_commitment: None,
        catalog_entry_commitment: None,
        case_family_commitment: None,
        evaluator_id_commitment: None,
        evaluator_key_commitment: None,
        prompt_commitment: None,
        expected_commitment: None,
        account_commitment: None,
        device_commitment: None,
        node_commitment: None,
    }
}

fn row(private: PrivateColumns) -> ChallengeRow {
    ChallengeRow {
        id: Uuid::from_u128(1),
        model_id: Uuid::from_u128(2),
        model_instance_id: Uuid::from_u128(3),
        node_id: Uuid::from_u128(4),
        challenge_kind: "hidden_benchmark".to_owned(),
        prompt_hash: None,
        expected_hash: None,
        issued_at: 0,
        model_weights_hash: Some("11".repeat(32)),
        current_model_weights_hash: "11".repeat(32),
        challenge_nonce_hash: None,
        challenge_binding_hash: Some("12".repeat(32)),
        challenge_issued_expires_at: None,
        authorized_input_tokens: None,
        authorized_max_output_tokens: None,
        inference_seed: None,
        private,
    }
}

fn committed() -> PrivateColumns {
    let digest = || Some("ab".repeat(32));
    PrivateColumns {
        commitment_version: Some(2),
        catalog_valid_until: Some(1),
        catalog_statement_commitment: digest(),
        catalog_id_commitment: digest(),
        catalog_entry_commitment: digest(),
        case_family_commitment: Some("fa".repeat(32)),
        evaluator_id_commitment: digest(),
        evaluator_key_commitment: Some("ef".repeat(32)),
        prompt_commitment: digest(),
        expected_commitment: digest(),
        account_commitment: digest(),
        device_commitment: digest(),
        node_commitment: digest(),
        ..columns()
    }
}

#[test]
fn three_failures_quarantine_and_two_passes_recover() {
    let mut state = CanaryState::new();
    let first = record_instance_canary_signal(state, false);
    assert_eq!(first.signal.consecutive_failures, 1);
    assert_eq!(first.change, None);
    state = first.state;
    state = record_instance_canary_signal(state, false).state;
    assert!(!state.quarantined);
    let third = record_instance_canary_signal(state, false);
    assert!(third.state.quarantined);
    assert!(third.change.is_some());
    let pass = record_instance_canary_signal(third.state, true);
    assert!(pass.state.quarantined);
    assert_eq!(pass.state.recovery_passes, 1);
    let broken = record_instance_canary_signal(pass.state, false);
    assert_eq!(broken.state.recovery_passes, 0);
    let again = record_instance_canary_signal(broken.state, true);
    let recovered = record_instance_canary_signal(again.state, true);
    assert!(!recovered.state.quarantined);
    assert!(recovered.change.is_some());
}

#[test]
fn a_pass_breaks_a_run_of_failures() {
    let mut state = CanaryState::new();
    for passed in [false, false, true, false, false] {
        state = record_instance_canary_signal(state, passed).state;
    }
    assert_eq!(state.consecutive_failures, 2);
    assert!(!state.quarantined);
}

#[test]
fn weights_are_corroborated_by_two_instances() {
    let first = arbitrate(0, 0, 0, true).expect("counts fit");
    assert_eq!(first.verdict, ArbitrationVerdict::Pending);
    let second = arbitrate(1, 1, 0, true).expect("counts fit");
    assert_eq!((second.observed, second.passing, second.failing), (2, 2, 0));
    assert_eq!(second.verdict.name(), "corroborated");
    let disputed = arbitrate(5, 5, 0, false).expect("counts fit");
    assert_eq!(disputed.verdict.name(), "disputed");
    assert_eq!(
        arbitrate(i64::from(i32::MAX), 0, 0, true).err(),
        Some(ApiError::Internal)
    );
}

#[test]
fn private_results_are_compared_in_their_scope() {
    let v2 = TerminalMutationAuthorization::V2(());
    let scope = arbitration_scope(&row(committed()), &v2).expect("entitled").expect("private");
    assert_eq!(scope.version, 2);
    assert_eq!(scope.evaluator, "ef".repeat(32));
    assert_eq!(scope.case_family, "fa".repeat(32));
    let previous = PreviousResults { observed: 1, passed: 1, failed: 0 };
    let (recorded, counts) =
        record_private_authenticity_arbitration(&row(committed()), &v2, previous, true)
            .expect("entitled")
            .expect("private");
    assert_eq!(recorded.key, scope.key);
    assert_eq!(
        recorded.key,
        private_arbitration_scope_key(
            2,
            &recorded.model_weights_hash,
            &"ef".repeat(32),
            &"fa".repeat(32),
        )
    );
    assert_eq!(counts.verdict, ArbitrationVerdict::Corroborated);
    let legacy = TerminalMutationAuthorization::<()>::Legacy;
    assert!(
        record_private_authenticity_arbitration(&row(columns()), &legacy, previous, true)
            .expect("public")
            .is_none()
    );
    assert!(
        record_private_authenticity_arbitration(&row(committed()), &legacy, previous, true).is_err()
    );
    let mut canary = row(committed());
    canary.challenge_kind = "canary".to_owned();
    assert!(arbitration_scope(&canary, &v2).is_err());
}
