use mindone_coordinator::ids::Uuid;
use mindone_coordinator::standard_data::{
    decrypt_from_storage, derive_subkey, encrypt_for_storage, fingerprint_from_legacy_digest,
    key_commitment, key_commitment_text, migrate_job, plan_migration, request_fingerprint,
    seal_for_storage, seal_under_drawn_nonce, verify_key_commitment, FingerprintStep, StorageDirection, StoredJob,
    ValueStep, COMMITMENT_KEY_INFO, ENCRYPTION_KEY_INFO, ENVELOPE_PREFIX, FINGERPRINT_KEY_INFO,
    FINGERPRINT_PREFIX, MAX_STORED_VALUE_BYTES,
};
use mindone_coordinator::text::valid_lower_hex;
use sha2::Digest;

fn random_id() -> Uuid {
    Uuid::from_u128(uuid::Uuid::new_v4().as_u128())
}

#[test]
fn round_trip_is_randomized_and_bound_to_job_and_direction() {
    let key = [7_u8; 32];
    let other_key = [8_u8; 32];
    let job_id = random_id();
    let plaintext = br#"eyJwcm9tcHQiOiJzZWNyZXQifQ=="#;
    let first = encrypt_for_storage(&key, job_id, StorageDirection::Payload, plaintext)
        .expect("应能加密 Standard payload");
    let second = encrypt_for_storage(&key, job_id, StorageDirection::Payload, plaintext)
        .expect("应能用随机 nonce 再次加密");
    assert!(first.starts_with(ENVELOPE_PREFIX));
    assert_ne!(first, second);
    assert!(!first.contains(std::str::from_utf8(plaintext).expect("测试值是 UTF-8")));
    assert_eq!(
        &*decrypt_from_storage(&key, job_id, StorageDirection::Payload, &first)
            .expect("同一 AAD 应解密"),
        plaintext
    );
    assert!(decrypt_from_storage(&key, random_id(), StorageDirection::Payload, &first).is_err());
    assert!(decrypt_from_storage(&key, job_id, StorageDirection::Result, &first).is_err());
    assert!(decrypt_from_storage(&other_key, job_id, StorageDirection::Payload, &first).is_err());
}

#[test]
fn tampering_is_rejected_and_fingerprint_is_keyed() {
    let key = [9_u8; 32];
    let job_id = random_id();
    let mut envelope = encrypt_for_storage(&key, job_id, StorageDirection::Result, b"c2Vuc2l0aXZl")
        .expect("应能加密结果");
    envelope.push('A');
    assert!(decrypt_from_storage(&key, job_id, StorageDirection::Result, &envelope).is_err());
    let fingerprint =
        request_fingerprint(&key, br#"{"prompt":"guessable"}"#).expect("应能生成 HMAC 指纹");
    assert!(fingerprint.starts_with(FINGERPRINT_PREFIX));
    assert!(valid_lower_hex(&fingerprint[FINGERPRINT_PREFIX.len()..], 64));
    assert!(!fingerprint.contains("guessable"));
    assert_ne!(
        fingerprint,
        request_fingerprint(&[10_u8; 32], br#"{"prompt":"guessable"}"#)
            .expect("另一密钥也应生成指纹")
    );
    assert_ne!(
        &*derive_subkey(&key, ENCRYPTION_KEY_INFO).expect("应派生加密子键"),
        &*derive_subkey(&key, FINGERPRINT_KEY_INFO).expect("应派生指纹子键")
    );
    assert_ne!(
        &*derive_subkey(&key, FINGERPRINT_KEY_INFO).expect("应派生指纹子键"),
        &*derive_subkey(&key, COMMITMENT_KEY_INFO).expect("应派生承诺子键")
    );
    assert!(valid_lower_hex(&"a".repeat(64), 64));
    assert!(!valid_lower_hex(&"A".repeat(64), 64));
    assert!(!valid_lower_hex(&"a".repeat(63), 64));
}

#[test]
fn stream_event_envelope_is_bound_to_attempt_and_sequence() {
    let key = [11_u8; 32];
    let job_id = random_id();
    let direction = StorageDirection::StreamEvent {
        attempt_number: 1,
        sequence_number: 7,
    };
    let plaintext = r#"{"delta":"真实输出"}"#;
    let envelope = encrypt_for_storage(&key, job_id, direction, plaintext.as_bytes())
        .expect("应加密 SSE 输出");
    assert!(decrypt_from_storage(&key, job_id, direction, &envelope).is_ok());
    assert!(decrypt_from_storage(
        &key,
        job_id,
        StorageDirection::StreamEvent {
            attempt_number: 1,
            sequence_number: 8,
        },
        &envelope,
    )
    .is_err());
    assert!(decrypt_from_storage(
        &key,
        job_id,
        StorageDirection::StreamEvent {
            attempt_number: 2,
            sequence_number: 7,
        },
        &envelope,
    )
    .is_err());
}

#[test]
fn values_are_bounded() {
    let key = [1_u8; 32];
    let id = Uuid::from_u128(1);
    let seal = |length: usize| {
        seal_for_storage(&key, id, StorageDirection::Payload, &vec![65; length], [2; 12])
    };
    assert!(seal(0).is_err());
    assert!(seal(1).is_ok());
    assert!(seal(MAX_STORED_VALUE_BYTES).is_ok());
    assert!(seal(MAX_STORED_VALUE_BYTES + 1).is_err());
    assert_eq!(seal(10), seal(10));
    assert!(decrypt_from_storage(&key, id, StorageDirection::Payload, "plain").is_err());
    let truncated = format!("{ENVELOPE_PREFIX}AAAA");
    assert!(decrypt_from_storage(&key, id, StorageDirection::Payload, &truncated).is_err());
}

#[test]
fn key_commitments_tell_keys_apart() {
    let stored = key_commitment_text(&[3; 32]).expect("derived");
    assert_eq!(stored, hex::encode(key_commitment(&[3; 32]).expect("derived")));
    assert_eq!(verify_key_commitment(&[3; 32], &stored), Ok(()));
    assert!(verify_key_commitment(&[4; 32], &stored).is_err());
    assert!(verify_key_commitment(&[3; 32], "not hex").is_err());
}

#[test]
fn legacy_digests_are_keyed_like_requests() {
    let key = [3; 32];
    let digest = sha2::Sha256::digest(b"MindOne Standard create idempotency fingerprint v1\0{}");
    assert_eq!(
        fingerprint_from_legacy_digest(&key, digest.as_slice()),
        request_fingerprint(&key, b"{}")
    );
}

#[test]
fn stored_jobs_are_migrated_once() {
    let key = [3; 32];
    let id = Uuid::from_u128(5);
    let legacy = StoredJob {
        job_id: id,
        payload_version: 0,
        payload: "cGF5bG9hZA==".to_owned(),
        result_version: Some(0),
        result: Some("cmVzdWx0".to_owned()),
        fingerprint: Some("ab".repeat(32)),
    };
    let plan = plan_migration(&legacy).expect("legacy");
    assert_eq!(plan.payload, ValueStep::Seal);
    assert_eq!(plan.result, ValueStep::Seal);
    assert_eq!(plan.fingerprint, FingerprintStep::Key);
    let migrated = migrate_job(&key, &legacy).expect("migrated");
    assert_eq!(
        decrypt_from_storage(&key, id, StorageDirection::Payload, &migrated.payload),
        Ok(b"cGF5bG9hZA==".to_vec())
    );
    assert_eq!(
        migrated.fingerprint,
        fingerprint_from_legacy_digest(&key, &[0xab; 32]).expect("keyed")
    );
    let present = StoredJob {
        job_id: id,
        payload_version: 1,
        payload: migrated.payload.clone(),
        result_version: Some(1),
        result: migrated.result.clone(),
        fingerprint: Some(migrated.fingerprint.clone()),
    };
    let again = migrate_job(&key, &present).expect("kept");
    assert_eq!(again.payload, migrated.payload);
    assert_eq!(again.result, migrated.result);
    assert_eq!(again.fingerprint, migrated.fingerprint);
    let unfinished = StoredJob { result_version: None, result: None, ..present };
    assert_eq!(plan_migration(&unfinished).expect("valid").result, ValueStep::Absent);
    let broken = StoredJob { result_version: Some(1), ..unfinished };
    assert!(plan_migration(&broken).is_err());
}

#[test]
fn nothing_is_sealed_without_a_nonce() {
    let key = [7_u8; 32];
    let id = random_id();
    let sealed = seal_under_drawn_nonce(&key, id, StorageDirection::Result, b"value", Some([2; 12]));
    assert_eq!(sealed, seal_for_storage(&key, id, StorageDirection::Result, b"value", [2; 12]));
    assert_eq!(
        decrypt_from_storage(&key, id, StorageDirection::Result, &sealed.expect("sealed")),
        Ok(b"value".to_vec())
    );
    assert!(seal_under_drawn_nonce(&key, id, StorageDirection::Result, b"value", None).is_err());
    assert!(seal_under_drawn_nonce(&key, id, StorageDirection::Result, b"", Some([2; 12])).is_err());
}

#[test]
fn envelopes_are_refused_once_anything_is_changed() {
    let key = [7_u8; 32];
    let job_id = random_id();
    let envelope = seal_for_storage(&key, job_id, StorageDirection::Result, b"value", [3; 12])
        .expect("sealed");
    let open = |envelope: &str| {
        decrypt_from_storage(&key, job_id, StorageDirection::Result, envelope)
    };
    assert_eq!(open(&envelope), Ok(b"value".to_vec()));
    for appended in ["A", "=", " ", "AAAA"] {
        assert!(open(&format!("{envelope}{appended}")).is_err());
    }
    for at in ENVELOPE_PREFIX.len()..envelope.len() {
        let other = if envelope.as_bytes()[at] == b'A' { "B" } else { "A" };
        let mut changed = envelope.clone();
        changed.replace_range(at..=at, other);
        assert!(open(&changed).is_err());
    }
    assert!(open(&envelope[..envelope.len() - 1]).is_err());
    assert!(open(&envelope[ENVELOPE_PREFIX.len()..]).is_err());
}

#[test]
fn values_that_cannot_be_stored_are_not_migrated() {
    let key = [7_u8; 32];
    let job = |payload: &str, result: Option<&str>| StoredJob {
        job_id: Uuid::from_u128(1),
        payload: payload.to_owned(),
        payload_version: 0,
        result: result.map(str::to_owned),
        result_version: result.map(|_| 0),
        fingerprint: Some("ab".repeat(32)),
    };
    assert!(migrate_job(&key, &job("payload", Some("result"))).is_ok());
    assert!(migrate_job(&key, &job("", None)).is_err());
    assert!(migrate_job(&key, &job("payload", Some(""))).is_err());
    let large = "x".repeat(MAX_STORED_VALUE_BYTES + 1);
    assert!(migrate_job(&key, &job(&large, None)).is_err());
}
