use mindone_coordinator::api_keys::{check_created, plan_revocation};
use mindone_coordinator::error::ApiError;
use mindone_coordinator::health::{health, ready};
use mindone_coordinator::ids::Uuid;
use mindone_coordinator::quota::{
    authorize_receipt, available_micro, check_history_entry, history_page, ledger_namespace_from_db,
    parse_time, read_history_entry, recomputation_status, require_time, reserve_uses,
    HistoryQuery, LedgerNamespace, LedgerRecomputationStatus, LEDGER_HASH_VERSION,
};

#[test]
fn history_marks_only_v2_recomputable_and_legacy_v1_unverifiable() {
    assert_eq!(
        recomputation_status(LEDGER_HASH_VERSION),
        Some(LedgerRecomputationStatus::CanonicalV2Recomputable)
    );
    assert_eq!(
        recomputation_status(1),
        Some(LedgerRecomputationStatus::LegacyV1Unverifiable)
    );
    assert_eq!(recomputation_status(0), None);
    assert_eq!(recomputation_status(3), None);
}

#[test]
fn history_entries_are_whole() {
    assert_eq!(
        check_history_entry(2, Some(3)),
        Ok(LedgerRecomputationStatus::CanonicalV2Recomputable)
    );
    assert_eq!(check_history_entry(2, None), Err(ApiError::Internal));
    assert_eq!(check_history_entry(3, Some(0)), Err(ApiError::Internal));
    assert_eq!(
        read_history_entry(2, "{\"purpose\":\"retry\"}"),
        Ok(LedgerRecomputationStatus::CanonicalV2Recomputable)
    );
    assert_eq!(
        read_history_entry(1, "{}"),
        Ok(LedgerRecomputationStatus::LegacyV1Unverifiable)
    );
    assert_eq!(read_history_entry(1, "{\"a\":\"b\"}"), Err(ApiError::Internal));
    assert_eq!(read_history_entry(2, "{\"a\":1}"), Err(ApiError::Internal));
    assert_eq!(read_history_entry(2, "[]"), Err(ApiError::Internal));
    assert_eq!(read_history_entry(2, "{"), Err(ApiError::Internal));
    assert_eq!(ledger_namespace_from_db("quota"), Ok(LedgerNamespace::Quota));
    assert_eq!(ledger_namespace_from_db("contribution"), Ok(LedgerNamespace::Contribution));
    assert!(ledger_namespace_from_db("other").is_err());
}

#[test]
fn times_are_read_as_rfc_3339() {
    let time = |value: &str| parse_time(&Some(value.to_owned()));
    assert_eq!(time("1970-01-01T00:00:01Z"), Ok(Some(1_000_000_000)));
    assert_eq!(time("1970-01-01T01:00:00.5+01:00"), Ok(Some(500_000_000)));
    assert_eq!(
        time("yesterday"),
        Err(ApiError::bad_request("invalid_timestamp", "时间必须使用 RFC 3339 格式"))
    );
    assert_eq!(parse_time(&None), Ok(None));
    assert_eq!(require_time(Some(5)), Ok(Some(5)));
    assert!(require_time(None).is_err());
}

#[test]
fn history_is_told_in_pages() {
    let query = |limit, after: Option<&str>, before: Option<&str>| HistoryQuery {
        limit,
        cursor: Some(Uuid::from_u128(1)),
        after: after.map(str::to_owned),
        before: before.map(str::to_owned),
    };
    let page = history_page(&query(None, Some("1970-01-01T00:00:01Z"), None)).expect("valid");
    assert_eq!(page.cursor, Some(Uuid::from_u128(1)));
    assert_eq!(page.after, Some(1_000_000_000));
    assert_eq!(page.before, None);
    let tiny = history_page(&query(Some(0), None, None)).expect("valid");
    assert_eq!(tiny.limit, 1);
    let huge = history_page(&query(Some(i64::MAX), None, None)).expect("valid");
    assert!(huge.limit < 10_000);
    assert!(history_page(&query(None, Some("x"), None)).is_err());
}

#[test]
fn balances_and_receipts_are_for_the_parties() {
    assert_eq!(available_micro(10, 4), 6);
    assert_eq!(available_micro(i64::MIN, 1), i64::MIN);
    let (consumer, node) = (Uuid::from_u128(1), Uuid::from_u128(2));
    assert_eq!(authorize_receipt(consumer, consumer, node), Ok(()));
    assert_eq!(authorize_receipt(node, consumer, node), Ok(()));
    assert!(authorize_receipt(Uuid::from_u128(3), consumer, node).is_err());
    assert_eq!(reserve_uses().len(), 4);
}

#[test]
fn keys_are_created_and_revoked_once() {
    assert_eq!(check_created(true), Ok(()));
    assert!(check_created(false).is_err());
    assert!(plan_revocation(None).is_err());
    assert_ne!(plan_revocation(Some(None)), plan_revocation(Some(Some(1))));
}

#[test]
fn the_service_reports_on_itself() {
    assert_eq!(health().service, "mindone-coordinator");
    assert_eq!(ready(true).expect("ready").version, health().version);
    assert!(ready(false).is_err());
}
