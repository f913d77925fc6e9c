use mindone_coordinator::arithmetic::{add_i64, saturating_sub_i64, weighted_ppm};
use mindone_coordinator::billing::{maximum_reservation_base_micro, sha256_hex};
use mindone_coordinator::clock::{expiry, MAX_MOMENT};
use mindone_coordinator::error::ApiError;
use mindone_coordinator::ids::Uuid;
use mindone_coordinator::reserve::{
    reserve_entry_type, reserve_release_request_fingerprint, ReservePurpose, ReserveReleaseCommand,
};
use mindone_coordinator::standard_data::{derive_subkey, ENCRYPTION_KEY_INFO};
use mindone_coordinator::text::{
    array_32, array_64, bytes_in, contains_control, contains_text, from_utf8, option_holds,
    push_big_endian, push_decimal, same_bytes, same_text, strip_prefix, to_ascii_lowercase, trim,
    valid_lower_hex,
};

#[test]
fn texts_are_trimmed_once_and_for_all() {
    let text = "\u{3000} a b\t\n";
    assert_eq!(trim(text), "a b");
    assert_eq!(trim(trim(text)), trim(text));
    assert_eq!(trim("  "), "");
}

#[test]
fn texts_are_compared_and_searched() {
    assert!(same_text("真", "真"));
    assert!(!same_text("真", "假"));
    assert!(same_bytes(b"ab", b"ab"));
    assert!(!same_bytes(b"ab", b"abc"));
    assert!(contains_text("abcabd", "abd"));
    assert!(!contains_text("abcabc", "abd"));
    assert!(contains_text("a", ""));
    assert_eq!(strip_prefix("mnev_x", "mnev_"), Some("x"));
    assert_eq!(strip_prefix("mne", "mnev_"), None);
    assert!(option_holds(&Some("a".to_owned()), "a"));
    assert!(!option_holds(&None, "a"));
    assert!(contains_control("a\u{7f}"));
    assert!(!contains_control("a b"));
    assert_eq!(bytes_in("真a"), 4);
    assert_eq!(to_ascii_lowercase("ÀBc"), "Àbc");
    assert!(valid_lower_hex("0f", 2));
    assert!(!valid_lower_hex("0F", 2));
}

#[test]
fn numbers_are_written_out() {
    let mut out = String::new();
    push_decimal(&mut out, i64::MIN);
    push_decimal(&mut out, 0);
    assert_eq!(out, "-92233720368547758080");
    let mut bytes = Vec::new();
    push_big_endian(&mut bytes, 0x0102, 4);
    assert_eq!(bytes, vec![0, 0, 1, 2]);
    assert_eq!(array_32(&[7; 32]), Some([7; 32]));
    assert_eq!(array_32(&[7; 31]), None);
    assert_eq!(array_64(&[7; 64]), Some([7; 64]));
    assert_eq!(from_utf8(vec![0xe7, 0x9c, 0x9f]), Some("真".to_owned()));
    assert_eq!(from_utf8(vec![0xff]), None);
}

#[test]
fn identifiers_are_hyphenated() {
    assert_eq!(
        Uuid::from_u128(0x0123_4567_89ab_cdef_0123_4567_89ab_cdef).text(),
        "01234567-89ab-cdef-0123-456789abcdef"
    );
    let mut octets = Vec::new();
    Uuid::from_u128(258).push_octets(&mut octets);
    assert_eq!(octets, vec![0, 0, 0, 0, 0, 0, 0, 0, 0, 0, 0, 0, 0, 0, 1, 2]);
}

#[test]
fn amounts_saturate_or_fail() {
    assert_eq!(saturating_sub_i64(i64::MIN, 1), i64::MIN);
    assert_eq!(saturating_sub_i64(5, 7), -2);
    assert_eq!(add_i64(1, 2), Ok(3));
    assert_eq!(add_i64(i64::MAX, 1), Err(ApiError::Internal));
    assert_eq!(weighted_ppm(3, 500_000), 1);
    assert_eq!(weighted_ppm(3, -500_000), -1);
    let small = maximum_reservation_base_micro(10, 10, 100).expect("valid");
    let large = maximum_reservation_base_micro(11, 10, 100).expect("valid");
    assert!(small <= large);
}

#[test]
fn moments_end_with_the_calendar() {
    assert_eq!(expiry(0, 1), Ok(1_000_000_000));
    assert_eq!(expiry(MAX_MOMENT, 1), Err(ApiError::Internal));
    assert_eq!(expiry(0, u64::MAX), Err(ApiError::Internal));
}

#[test]
fn orders_are_known_by_their_json() {
    let command = ReserveReleaseCommand {
        purpose: ReservePurpose::BandwidthSubsidy,
        amount_micro: 7,
        reference_id: "r-1".to_owned(),
        idempotency_key: "k-1".to_owned(),
        operator_id: "o-1".to_owned(),
        reason: "a \"quoted\" reason".to_owned(),
    };
    assert_eq!(
        reserve_release_request_fingerprint(&command),
        Ok(sha256_hex(
            "{\"schema_version\":1,\"purpose\":\"bandwidth\",\"amount_micro\":7,\
             \"reference_id\":\"r-1\",\"idempotency_key\":\"k-1\",\"operator_id\":\"o-1\",\
             \"reason\":\"a \\\"quoted\\\" reason\"}"
        ))
    );
    let names = [
        reserve_entry_type(ReservePurpose::ResultValidation),
        reserve_entry_type(ReservePurpose::FailedRetry),
        reserve_entry_type(ReservePurpose::BandwidthSubsidy),
        reserve_entry_type(ReservePurpose::PeakGuarantee),
    ];
    assert_eq!(names, ["verification", "retry", "bandwidth", "peak_capacity"]);
}

#[test]
fn subkeys_are_not_the_key() {
    let derived = derive_subkey(&[7; 32], ENCRYPTION_KEY_INFO).expect("derived");
    assert_eq!(derived.len(), 32);
    assert_ne!(derived, vec![7; 32]);
}
