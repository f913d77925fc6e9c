//! Accounts, their histories and their receipts, as they are shown to their owners.

use vstd::prelude::*;

use time::format_description::well_known::Rfc3339;

use crate::arithmetic;
use crate::arithmetic::saturating_sub_i64;
use crate::billing::{JobBillingRow, JobBillingSnapshot, SERVER_REFERENCE_UPPER_BOUND_V1};
use crate::error;
use crate::error::ApiError;
use crate::ids::Uuid;
use crate::json::{json_value, parse_json, Json};
use crate::text;

verus! {

/// The version of ledger hashes that can be computed anew.
pub const LEDGER_HASH_VERSION: i16 = 2;

/// What an account can still spend: what it has, less what is reserved.
pub fn available_micro(spendable_micro: i64, reserved_micro: i64) -> (available: i64)
    ensures
        available == arithmetic::clamped_i64(spendable_micro - reserved_micro),
{
    saturating_sub_i64(spendable_micro, reserved_micro)
}

/// Which ledger an entry stands in.
#[derive(Clone, Copy, Debug, PartialEq, Eq, Structural)]
pub enum LedgerNamespace {
    Quota,
    Contribution,
}

impl LedgerNamespace {
    pub open spec fn name(self) -> Seq<char> {
        match self {
            LedgerNamespace::Quota => "quota"@,
            LedgerNamespace::Contribution => "contribution"@,
        }
    }
}

pub fn ledger_namespace_from_db(value: &str) -> (ledger: Result<LedgerNamespace, ApiError>)
    ensures
        match ledger {
            Ok(ledger) => ledger.name() == value@,
            Err(refused) => refused == ApiError::internal() && forall|ledger: LedgerNamespace|
                #[trigger] ledger.name() != value@,
        },
{
    if text::same_text(value, "quota") {
        Ok(LedgerNamespace::Quota)
    } else if text::same_text(value, "contribution") {
        Ok(LedgerNamespace::Contribution)
    } else {
        Err(ApiError::internal())
    }
}

/// Whether the hash of a ledger entry can be computed anew from what is shown of it.
#[derive(Clone, Copy, Debug, PartialEq, Eq, Structural)]
pub enum LedgerRecomputationStatus {
    LegacyV1Unverifiable,
    CanonicalV2Recomputable,
}

pub fn recomputation_status(hash_version: i16) -> (status: Option<LedgerRecomputationStatus>)
    ensures
        status == if hash_version == 1 {
            Some(LedgerRecomputationStatus::LegacyV1Unverifiable)
        } else if hash_version == LEDGER_HASH_VERSION {
            Some(LedgerRecomputationStatus::CanonicalV2Recomputable)
        } else {
            None
        },
{
    if hash_version == 1 {
        Some(LedgerRecomputationStatus::LegacyV1Unverifiable)
    } else if hash_version == LEDGER_HASH_VERSION {
        Some(LedgerRecomputationStatus::CanonicalV2Recomputable)
    } else {
        None
    }
}

/// What is told of an entry with so many metadata.
pub open spec fn checked_entry(hash_version: i16, metadata_entries: Option<nat>) -> Result<
    LedgerRecomputationStatus,
    ApiError,
> {
    match metadata_entries {
        Some(entries) => if hash_version == LEDGER_HASH_VERSION {
            Ok(LedgerRecomputationStatus::CanonicalV2Recomputable)
        } else if hash_version == 1 && entries == 0 {
            Ok(LedgerRecomputationStatus::LegacyV1Unverifiable)
        } else {
            Err(ApiError::internal())
        },
        None => Err(ApiError::internal()),
    }
}

/// Checks an entry before it is shown: its version must be known, and an entry of the
/// first version has no metadata. `None` stands for metadata that are no texts under
/// names.
pub fn check_history_entry(hash_version: i16, metadata_entries: Option<usize>) -> (status: Result<
    LedgerRecomputationStatus,
    ApiError,
>)
    ensures
        status == checked_entry(
            hash_version,
            match metadata_entries {
                Some(entries) => Some(entries as nat),
                None => None,
            },
        ),
{
    let status = match recomputation_status(hash_version) {
        Some(status) => status,
        None => {
            return Err(ApiError::internal());
        },
    };
    let entries: usize = match metadata_entries {
        Some(entries) => entries,
        None => {
            return Err(ApiError::internal());
        },
    };
    if hash_version == 1 && entries != 0 {
        return Err(ApiError::internal());
    }
    Ok(status)
}

/// The number of texts under names that a value holds, if it holds nothing else.
pub open spec fn named_texts(metadata: Json) -> Option<nat> {
    match metadata {
        Json::Object(members) => if forall|i: int|
            0 <= i < members@.len() ==> (#[trigger] members@[i]).1 is Text {
            Some(members@.len())
        } else {
            None
        },
        _ => None,
    }
}

/// Counts the texts under names that a value holds.
pub fn metadata_entries(metadata: &Json) -> (entries: Option<usize>)
    ensures
        match entries {
            Some(entries) => named_texts(*metadata) == Some(entries as nat),
            None => named_texts(*metadata) is None,
        },
{
    match metadata {
        Json::Object(members) => {
            let mut i: usize = 0;
            while i < members.len()
                invariant
                    i <= members@.len(),
                    *metadata matches Json::Object(held) && held@ == members@,
                    forall|j: int| 0 <= j < i ==> (#[trigger] members@[j]).1 is Text,
                decreases members@.len() - i,
            {
                if !matches!(&members[i].1, Json::Text(_)) {
                    assert(!(members@[i as int].1 is Text));
                    return None;
                }
                i += 1;
            }
            Some(members.len())
        },
        _ => None,
    }
}

/// Reads the metadata of an entry, and checks the entry before it is shown.
pub fn read_history_entry(hash_version: i16, metadata: &str) -> (status: Result<
    LedgerRecomputationStatus,
    ApiError,
>)
    ensures
        status == checked_entry(
            hash_version,
            match json_value(metadata@) {
                Some(metadata) => named_texts(metadata),
                None => None,
            },
        ),
{
    let entries = match parse_json(metadata) {
        Some(metadata) => metadata_entries(&metadata),
        None => None,
    };
    check_history_entry(hash_version, entries)
}

/// The moment that an RFC 3339 text names, if it is one, in nanoseconds since the Unix
/// epoch.
pub uninterp spec fn rfc3339_moment(value: Seq<char>) -> Option<i128>;

/// Calls `time::OffsetDateTime::parse` for the format `Rfc3339`, and
/// `OffsetDateTime::unix_timestamp_nanos` of what it returns: the text alone decides
/// over the moment, and over whether there is one.
#[verifier::external_body]
fn parse_rfc3339(value: &str) -> (moment: Option<i128>)
    ensures
        moment == rfc3339_moment(value@),
{
    time::OffsetDateTime::parse(value, &Rfc3339).ok().map(|moment| moment.unix_timestamp_nanos())
}

/// What a text that may be missing says of a moment.
pub open spec fn parsed_time(value: Option<String>) -> Result<Option<i128>, ApiError> {
    match value {
        None => Ok(None),
        Some(value) => read_time(rfc3339_moment(value@)),
    }
}

/// A moment that was read, or the error that none was.
pub open spec fn read_time(moment: Option<i128>) -> Result<Option<i128>, ApiError> {
    match moment {
        Some(moment) => Ok(Some(moment)),
        None => Err(ApiError::bad_request("invalid_timestamp", "时间必须使用 RFC 3339 格式")),
    }
}

/// Takes a moment that a text must have named.
pub fn require_time(moment: Option<i128>) -> (time: Result<Option<i128>, ApiError>)
    ensures
        time == read_time(moment),
{
    match moment {
        Some(moment) => Ok(Some(moment)),
        None => Err(ApiError::bad_request("invalid_timestamp", "时间必须使用 RFC 3339 格式")),
    }
}

/// Reads a time that may be missing.
pub fn parse_time(value: &Option<String>) -> (time: Result<Option<i128>, ApiError>)
    ensures
        time == parsed_time(*value),
{
    match value {
        None => Ok(None),
        Some(value) => require_time(parse_rfc3339(value.as_str())),
    }
}

/// Which part of a history is asked for.
pub struct HistoryQuery {
    pub limit: Option<i64>,
    pub cursor: Option<Uuid>,
    pub after: Option<String>,
    pub before: Option<String>,
}

/// The part of a history that is shown.
#[derive(Clone, Copy, Debug, PartialEq, Eq, Structural)]
pub struct HistoryPage {
    pub limit: i64,
    pub cursor: Option<Uuid>,
    pub after: Option<i128>,
    pub before: Option<i128>,
}

/// How many entries are shown: 50 unless asked otherwise, and between 1 and 200.
pub open spec fn page_limit(limit: Option<i64>) -> int {
    match limit {
        None => 50,
        Some(limit) => if limit < 1 {
            1
        } else if limit > 200 {
            200
        } else {
            limit as int
        },
    }
}

/// The part of a history between two moments that were read, if there is a time
/// between them.
pub open spec fn page_between(
    limit: Option<i64>,
    cursor: Option<Uuid>,
    after: Option<i128>,
    before: Option<i128>,
) -> Result<HistoryPage, ApiError> {
    if after is Some && before is Some && after->0 >= before->0 {
        Err(ApiError::bad_request("invalid_time_range", "after 必须早于 before"))
    } else {
        Ok(HistoryPage { limit: page_limit(limit) as i64, cursor, after, before })
    }
}

/// Finds the part of a history between two moments.
pub fn history_between(
    limit: Option<i64>,
    cursor: Option<Uuid>,
    after: Option<i128>,
    before: Option<i128>,
) -> (page: Result<HistoryPage, ApiError>)
    ensures
        page == page_between(limit, cursor, after, before),
{
    let limit: i64 = match limit {
        None => 50,
        Some(limit) => if limit < 1 {
            1
        } else if limit > 200 {
            200
        } else {
            limit
        },
    };
    if let Some(start) = after {
        if let Some(end) = before {
            if start >= end {
                return Err(
                    ApiError::bad_request("invalid_time_range", "after 必须早于 before"),
                );
            }
        }
    }
    Ok(HistoryPage { limit, cursor, after, before })
}

/// What a query asks for.
pub open spec fn requested_page(query: HistoryQuery) -> Result<HistoryPage, ApiError> {
    match parsed_time(query.after) {
        Err(refused) => Err(refused),
        Ok(after) => match parsed_time(query.before) {
            Err(refused) => Err(refused),
            Ok(before) => page_between(query.limit, query.cursor, after, before),
        },
    }
}

/// Reads a query for a part of a history.
pub fn history_page(query: &HistoryQuery) -> (page: Result<HistoryPage, ApiError>)
    ensures
        page == requested_page(*query),
{
    let after = parse_time(&query.after)?;
    let before = parse_time(&query.before)?;
    history_between(query.limit, query.cursor, after, before)
}

/// A page always has room for an entry, and is never longer than two hundred.
pub proof fn pages_are_bounded(query: HistoryQuery, page: HistoryPage)
    requires
        requested_page(query) == Ok::<HistoryPage, ApiError>(page),
    ensures
        1 <= page.limit <= 200,
        page.after is Some && page.before is Some ==> page.after->0 < page.before->0,
{
}

pub open spec fn receipt_refusal(viewer: Uuid, consumer: Uuid, node_user: Uuid) -> Option<ApiError> {
    if viewer != consumer && viewer != node_user {
        Some(ApiError::forbidden("无权查看此荣誉账单"))
    } else {
        None
    }
}

/// A receipt is shown to the two accounts that it is about.
pub fn authorize_receipt(viewer: Uuid, consumer: Uuid, node_user: Uuid) -> (authorized: Result<
    (),
    ApiError,
>)
    ensures
        authorized == error::unless(receipt_refusal(viewer, consumer, node_user), ()),
{
    if viewer != consumer && viewer != node_user {
        return Err(ApiError::forbidden("无权查看此荣誉账单"));
    }
    Ok(())
}

/// The billing of a receipt, as it was frozen: that of the present contract, none for
/// the earlier one, and an error for any other.
pub open spec fn frozen_billing(row: JobBillingRow, base_cost_micro: i64) -> Result<
    Option<JobBillingSnapshot>,
    ApiError,
> {
    match row.contract_version {
        None => Ok(None),
        Some(version) => if version@ == SERVER_REFERENCE_UPPER_BOUND_V1@ {
            if row.complete() && row.base_cost_micro->0 == base_cost_micro {
                Ok(Some(row.snapshot()))
            } else {
                Err(ApiError::internal())
            }
        } else if version@ == "legacy_token_v1"@ {
            Ok(None)
        } else {
            Err(ApiError::internal())
        },
    }
}

/// Reads the billing of a receipt. It must be complete, and must come to the base cost
/// that the receipt states.
pub fn receipt_billing(row: JobBillingRow, base_cost_micro: i64) -> (billing: Result<
    Option<JobBillingSnapshot>,
    ApiError,
>)
    ensures
        billing == frozen_billing(row, base_cost_micro),
{
    if row.contract_version.is_none() {
        return Ok(None);
    }
    if text::option_holds(&row.contract_version, SERVER_REFERENCE_UPPER_BOUND_V1) {
        let snapshot = row.into_snapshot()?;
        if snapshot.base_cost_micro != base_cost_micro {
            return Err(ApiError::internal());
        }
        return Ok(Some(snapshot));
    }
    if text::option_holds(&row.contract_version, "legacy_token_v1") {
        return Ok(None);
    }
    Err(ApiError::internal())
}

/// The uses that the reserve may be put to.
pub fn reserve_uses() -> (uses: Vec<&'static str>)
    ensures
        uses@.map_values(|name: &str| name@) == seq![
            "verification"@,
            "retry"@,
            "bandwidth"@,
            "peak_capacity"@,
        ],
{
    let uses = vec!["verification", "retry", "bandwidth", "peak_capacity"];
    assert(uses@.map_values(|name: &str| name@) =~= seq![
        "verification"@,
        "retry"@,
        "bandwidth"@,
        "peak_capacity"@,
    ]);
    uses
}

/// The names of the two ledgers.
pub proof fn ledgers_have_their_names()
    ensures
        LedgerNamespace::Quota.name() == "quota"@,
        LedgerNamespace::Contribution.name() == "contribution"@,
{
}

/// An entry can be recomputed exactly if it is of the second version, and is an old one only if it
/// is of the first and names nothing; an entry whose names cannot be read is neither.
pub proof fn entries_are_told_by_their_version(hash_version: i16, entries: Option<nat>)
    ensures
        checked_entry(hash_version, entries) == Ok::<LedgerRecomputationStatus, ApiError>(
            LedgerRecomputationStatus::CanonicalV2Recomputable,
        ) <==> hash_version == 2 && entries is Some,
        checked_entry(hash_version, entries) == Ok::<LedgerRecomputationStatus, ApiError>(
            LedgerRecomputationStatus::LegacyV1Unverifiable,
        ) <==> hash_version == 1 && entries == Some(0nat),
{
}

/// What an entry names can be read exactly if it is an object of texts.
pub proof fn names_are_texts(metadata: Json)
    ensures
        metadata matches Json::Object(members) ==> {
            &&& (forall|i: int| 0 <= i < members@.len() ==> (#[trigger] members@[i]).1 is Text)
                ==> named_texts(metadata) == Some(members@.len())
            &&& (exists|i: int| 0 <= i < members@.len() && !((#[trigger] members@[i]).1 is Text))
                ==> named_texts(metadata) is None
        },
        !(metadata is Object) ==> named_texts(metadata) is None,
{
}

/// A page shows what was asked for: as many entries, between 1 and 200, or fifty, from the place
/// and within the times that were given, if these are in order.
pub proof fn pages_show_what_was_asked_for(
    limit: Option<i64>,
    cursor: Option<Uuid>,
    after: Option<i128>,
    before: Option<i128>,
)
    ensures
        page_between(limit, cursor, after, before) is Ok <==> (after is Some && before is Some
            ==> after->0 < before->0),
        page_between(limit, cursor, after, before) matches Ok(page) ==> {
            &&& page.cursor == cursor && page.after == after && page.before == before
            &&& limit is None ==> page.limit == 50
            &&& limit matches Some(limit) ==> (1 <= limit <= 200 ==> page.limit == limit) && (limit
                < 1 ==> page.limit == 1) && (limit > 200 ==> page.limit == 200)
        },
        page_between(limit, cursor, after, before) matches Err(refused) ==> refused is BadRequest,
{
}

/// Times that are given must be times, and those that are not given are left open.
pub proof fn given_times_are_read(query: HistoryQuery)
    ensures
        requested_page(query) is Ok <==> {
            &&& query.after matches Some(after) ==> rfc3339_moment(after@) is Some
            &&& query.before matches Some(before) ==> rfc3339_moment(before@) is Some
            &&& query.after is Some && query.before is Some ==> rfc3339_moment(query.after->0@)->0
                < rfc3339_moment(query.before->0@)->0
        },
        requested_page(query) matches Ok(page) ==> {
            &&& page.cursor == query.cursor
            &&& query.after is None ==> page.after is None
            &&& query.before is None ==> page.before is None
            &&& query.after matches Some(after) ==> page.after == rfc3339_moment(after@)
            &&& query.before matches Some(before) ==> page.before == rfc3339_moment(before@)
        },
        forall|moment: Option<i128>| #[trigger]
            read_time(moment) is Ok <==> moment is Some,
        forall|moment: i128| #[trigger]
            read_time(Some(moment)) == Ok::<Option<i128>, ApiError>(Some(moment)),
{
}

/// A receipt is shown to who asked for the job and to whose node ran it, and to nobody else.
pub proof fn receipts_are_for_both_sides(viewer: Uuid, consumer: Uuid, node_user: Uuid)
    ensures
        receipt_refusal(viewer, consumer, node_user) is None <==> viewer == consumer || viewer
            == node_user,
        receipt_refusal(viewer, consumer, node_user) matches Some(refused) ==> refused is Forbidden,
{
}

/// A receipt tells the terms that were frozen with its job, if they are all there and come to
/// the cost of the job; jobs of the old kind have none.
pub proof fn receipts_tell_frozen_terms(row: JobBillingRow, base_cost_micro: i64)
    ensures
        row.contract_version is None || (row.contract_version matches Some(version) && version@
            == "legacy_token_v1"@) ==> frozen_billing(row, base_cost_micro) == Ok::<
            Option<JobBillingSnapshot>,
            ApiError,
        >(None),
        (row.contract_version matches Some(version) && version@
            == "server_reference_upper_bound_v1"@) ==> frozen_billing(row, base_cost_micro)
            == if row.complete() && row.base_cost_micro == Some(base_cost_micro) {
            Ok::<Option<JobBillingSnapshot>, ApiError>(Some(row.snapshot()))
        } else {
            Err::<Option<JobBillingSnapshot>, ApiError>(ApiError::Internal)
        },
        (row.contract_version matches Some(version) && version@
            != "server_reference_upper_bound_v1"@ && version@ != "legacy_token_v1"@)
            ==> frozen_billing(row, base_cost_micro) is Err,
{
    reveal_strlit("legacy_token_v1");
    reveal_strlit("server_reference_upper_bound_v1");
    assert("legacy_token_v1"@[0] == 'l' && "server_reference_upper_bound_v1"@[0] == 's');
}

} // verus!
