//! The network reserve: releasing part of it under the eyes of an operator, once
//! for each key, with a reason and a reference that are kept.

use vstd::prelude::*;

use crate::billing;
use crate::billing::{
    lemma_member, lemma_regroup, lemma_same_lead, lemma_text_member, number_member, text_member,
};
use crate::crypto;
use crate::error;
use crate::error::ApiError;
use crate::ids::Uuid;
use crate::json::push_json_string;
use crate::text;
use crate::text::is_ascii_alphanumeric;

verus! {

/// The most that one release can take out of the reserve.
pub const MAX_OPERATOR_RESERVE_RELEASE_MICRO: i64 = 1_000_000_000_000;

/// What a release pays for.
#[derive(Clone, Copy, Debug, PartialEq, Eq, Structural)]
pub enum ReservePurpose {
    ResultValidation,
    FailedRetry,
    BandwidthSubsidy,
    PeakGuarantee,
}

/// An order to release part of the reserve.
pub struct ReserveReleaseCommand {
    pub purpose: ReservePurpose,
    pub amount_micro: i64,
    pub reference_id: String,
    pub idempotency_key: String,
    pub operator_id: String,
    pub reason: String,
}

/// A release as it is reported.
pub struct ReserveReleaseOutcome {
    pub operator_audit_id: Uuid,
    pub release_id: Uuid,
    pub purpose: ReservePurpose,
    pub amount_micro: i64,
    pub balance_before_micro: i64,
    pub balance_after_micro: i64,
    pub reference_id: String,
    pub entry_hash: String,
    pub idempotent_replay: bool,
}

impl ReservePurpose {
    /// The type of the ledger entries for this purpose.
    pub open spec fn entry_name(self) -> Seq<char> {
        match self {
            ReservePurpose::ResultValidation => "verification"@,
            ReservePurpose::FailedRetry => "retry"@,
            ReservePurpose::BandwidthSubsidy => "bandwidth"@,
            ReservePurpose::PeakGuarantee => "peak_capacity"@,
        }
    }
}

pub fn reserve_entry_type(purpose: ReservePurpose) -> (entry_type: &'static str)
    ensures
        entry_type@ == purpose.entry_name(),
{
    match purpose {
        ReservePurpose::ResultValidation => "verification",
        ReservePurpose::FailedRetry => "retry",
        ReservePurpose::BandwidthSubsidy => "bandwidth",
        ReservePurpose::PeakGuarantee => "peak_capacity",
    }
}

/// Different purposes are entered under different types.
pub proof fn purposes_are_told_apart(first: ReservePurpose, second: ReservePurpose)
    requires
        first.entry_name() == second.entry_name(),
    ensures
        first == second,
{
    reveal_strlit("verification");
    reveal_strlit("retry");
    reveal_strlit("bandwidth");
    reveal_strlit("peak_capacity");
    assert("verification"@.len() == 12);
    assert("retry"@.len() == 5);
    assert("bandwidth"@.len() == 9);
    assert("peak_capacity"@.len() == 13);
}

/// A character that an operator identifier can hold.
#[verifier::allow_in_spec]
pub fn is_identifier_character(c: char) -> bool
    returns
        is_ascii_alphanumeric(c) || c == '.' || c == '_' || c == ':' || c == '@' || c == '/' || c
            == '-',
{
    is_ascii_alphanumeric(c) || c == '.' || c == '_' || c == ':' || c == '@' || c == '/' || c == '-'
}

/// 1 to 128 safe ASCII characters, the first of them a letter or a digit.
pub open spec fn is_operator_identifier(value: Seq<char>) -> bool {
    &&& 0 < value.len() <= 128
    &&& is_ascii_alphanumeric(value[0])
    &&& forall|i: int| 0 <= i < value.len() ==> is_identifier_character(#[trigger] value[i])
}

pub fn valid_operator_identifier(value: &str) -> (valid: bool)
    ensures
        valid == is_operator_identifier(value@),
{
    let all = text::characters(value);
    if all.len() == 0 || all.len() > 128 || !is_ascii_alphanumeric(all[0]) {
        return false;
    }
    let mut i: usize = 0;
    while i < all.len()
        invariant
            all@ == value@,
            i <= all@.len(),
            forall|j: int| 0 <= j < i ==> is_identifier_character(#[trigger] value@[j]),
        decreases all@.len() - i,
    {
        if !is_identifier_character(all[i]) {
            assert(!is_identifier_character(value@[i as int]));
            return false;
        }
        i += 1;
    }
    true
}

/// Neither white space around it nor a control character in it.
pub open spec fn is_clean(value: Seq<char>) -> bool {
    text::trimmed(value) == value && !text::has_control(value)
}

fn clean(value: &str) -> (clean: bool)
    ensures
        clean == is_clean(value@),
{
    text::same_text(text::trim(value), value) && !text::contains_control(value)
}

pub open spec fn reserve_release_refusal(command: ReserveReleaseCommand) -> Option<ApiError> {
    if !(1 <= command.amount_micro <= MAX_OPERATOR_RESERVE_RELEASE_MICRO) {
        Some(
            ApiError::bad_request(
                "invalid_reserve_amount",
                "准备金释放 amount_micro 必须在 1..=1000000000000",
            ),
        )
    } else if !is_operator_identifier(command.idempotency_key@) {
        Some(
            ApiError::bad_request(
                "invalid_idempotency_key",
                "准备金释放 idempotency_key 必须是 1 到 128 字节的安全 ASCII 标识符",
            ),
        )
    } else if !is_operator_identifier(command.operator_id@) {
        Some(
            ApiError::bad_request(
                "invalid_operator",
                "operator 必须是 1 到 128 字节的安全 ASCII 标识符",
            ),
        )
    } else if command.reference_id@.len() == 0 || text::byte_length(command.reference_id@) > 255
        || !is_clean(command.reference_id@) {
        Some(
            ApiError::bad_request(
                "invalid_reserve_reference",
                "reference 必须是 1 到 255 字节、无首尾空白或控制字符的审计引用",
            ),
        )
    } else if !(8 <= command.reason@.len() <= 512) || !is_clean(command.reason@) {
        Some(
            ApiError::bad_request(
                "invalid_operator_reason",
                "reason 必须是 8 到 512 个字符、无首尾空白或控制字符",
            ),
        )
    } else {
        None
    }
}

/// Checks an order: the amount is within bounds, the key and the operator are safe
/// identifiers, and the reference and the reason can be kept as they are.
pub fn validate_reserve_release_command(command: &ReserveReleaseCommand) -> (valid: Result<
    (),
    ApiError,
>)
    ensures
        valid == error::unless(reserve_release_refusal(*command), ()),
{
    if command.amount_micro < 1 || command.amount_micro > MAX_OPERATOR_RESERVE_RELEASE_MICRO {
        return Err(
            ApiError::bad_request(
                "invalid_reserve_amount",
                "准备金释放 amount_micro 必须在 1..=1000000000000",
            ),
        );
    }
    if !valid_operator_identifier(command.idempotency_key.as_str()) {
        return Err(
            ApiError::bad_request(
                "invalid_idempotency_key",
                "准备金释放 idempotency_key 必须是 1 到 128 字节的安全 ASCII 标识符",
            ),
        );
    }
    if !valid_operator_identifier(command.operator_id.as_str()) {
        return Err(
            ApiError::bad_request(
                "invalid_operator",
                "operator 必须是 1 到 128 字节的安全 ASCII 标识符",
            ),
        );
    }
    let reference = command.reference_id.as_str();
    if reference.is_empty() || text::bytes_in(reference) > 255 || !clean(reference) {
        return Err(
            ApiError::bad_request(
                "invalid_reserve_reference",
                "reference 必须是 1 到 255 字节、无首尾空白或控制字符的审计引用",
            ),
        );
    }
    let length = text::characters(command.reason.as_str()).len();
    if length < 8 || length > 512 || !clean(command.reason.as_str()) {
        return Err(
            ApiError::bad_request(
                "invalid_operator_reason",
                "reason 必须是 8 到 512 个字符、无首尾空白或控制字符",
            ),
        );
    }
    Ok(())
}

/// The JSON object that an order is known by.
pub open spec fn fingerprint_json(command: ReserveReleaseCommand) -> Seq<char> {
    "{\"schema_version\":1,\"purpose\":\""@ + command.purpose.entry_name() + number_member(
        "\",\"amount_micro\":"@,
        command.amount_micro,
    ) + text_member(",\"reference_id\":"@, command.reference_id@) + text_member(
        ",\"idempotency_key\":"@,
        command.idempotency_key@,
    ) + text_member(",\"operator_id\":"@, command.operator_id@) + text_member(
        ",\"reason\":"@,
        command.reason@,
    ) + "}"@
}

/// The SHA-256 digest of the JSON object of an order.
pub open spec fn json_digest(command: ReserveReleaseCommand) -> Seq<u8> {
    crypto::sha256(vstd::utf8::encode_utf8(fingerprint_json(command)))
}

/// What an order is recognised by: the hash of its JSON object.
pub open spec fn order_fingerprint(command: ReserveReleaseCommand) -> Seq<char> {
    billing::sha256_text(fingerprint_json(command))
}

/// The fingerprint of an order: the hash of its JSON object.
pub fn reserve_release_request_fingerprint(command: &ReserveReleaseCommand) -> (fingerprint: Result<
    String,
    ApiError,
>)
    ensures
        fingerprint matches Ok(hash) && hash@ == order_fingerprint(*command)
            && text::is_lower_hex(hash@, 64),
{
    let mut json = String::new();
    text::push_text(&mut json, "{\"schema_version\":1,\"purpose\":\"");
    text::push_text(&mut json, reserve_entry_type(command.purpose));
    text::push_text(&mut json, "\",\"amount_micro\":");
    text::push_decimal(&mut json, command.amount_micro);
    text::push_text(&mut json, ",\"reference_id\":");
    push_json_string(&mut json, command.reference_id.as_str());
    text::push_text(&mut json, ",\"idempotency_key\":");
    push_json_string(&mut json, command.idempotency_key.as_str());
    text::push_text(&mut json, ",\"operator_id\":");
    push_json_string(&mut json, command.operator_id.as_str());
    text::push_text(&mut json, ",\"reason\":");
    push_json_string(&mut json, command.reason.as_str());
    text::push_text(&mut json, "}");
    assert(json@ =~= fingerprint_json(*command));
    Ok(billing::sha256_hex(json.as_str()))
}

/// A release that the ledger holds under a key, with its audit record.
pub struct ExistingRelease {
    pub release_id: Uuid,
    pub entry_type: String,
    pub delta_micro: i64,
    pub balance_before_micro: i64,
    pub balance_after_micro: i64,
    pub audit_reference: Option<String>,
    pub entry_hash: String,
    pub operator_audit_id: Option<Uuid>,
    pub request_fingerprint: Option<String>,
}

/// What the reserve says to a release.
#[derive(Clone, Copy, Debug, PartialEq, Eq, Structural)]
pub enum ReserveAnswer {
    Released { balance_after_micro: i64 },
    InsufficientBalance,
    Failed,
}

/// The entry under the key is the one that this order would make.
pub open spec fn repeats_release(
    command: ReserveReleaseCommand,
    fingerprint: Seq<char>,
    existing: ExistingRelease,
) -> bool {
    &&& existing.delta_micro == -command.amount_micro
    &&& text::holds(existing.audit_reference, command.reference_id@)
    &&& existing.entry_type@ == command.purpose.entry_name()
    &&& text::holds(existing.request_fingerprint, fingerprint)
    &&& existing.operator_audit_id is Some
}

/// A report tells of the release that a key was used for.
pub open spec fn tells_release(
    outcome: ReserveReleaseOutcome,
    command: ReserveReleaseCommand,
    existing: ExistingRelease,
) -> bool {
    &&& existing.operator_audit_id == Some(outcome.operator_audit_id)
    &&& outcome.release_id == existing.release_id
    &&& outcome.purpose == command.purpose
    &&& outcome.amount_micro == command.amount_micro
    &&& outcome.balance_before_micro == existing.balance_before_micro
    &&& outcome.balance_after_micro == existing.balance_after_micro
    &&& outcome.reference_id == command.reference_id
    &&& outcome.entry_hash == existing.entry_hash
    &&& outcome.idempotent_replay
}

/// What is answered to an order whose key was used.
pub open spec fn answers_used_key(
    replayed: Result<ReserveReleaseOutcome, ApiError>,
    command: ReserveReleaseCommand,
    fingerprint: Seq<char>,
    existing: ExistingRelease,
) -> bool {
    match reserve_release_refusal(command) {
        Some(refused) => replayed == Err::<ReserveReleaseOutcome, ApiError>(refused),
        None => if repeats_release(command, fingerprint, existing) {
            replayed matches Ok(outcome) && tells_release(outcome, command, existing)
        } else {
            replayed == Err::<ReserveReleaseOutcome, ApiError>(
                ApiError::conflict("idempotency_key_reused", "准备金幂等键已经用于不同释放请求"),
            )
        },
    }
}

/// Reports the release that a key was used for. A key that was used for another
/// order is a conflict.
pub fn replay_release(
    command: ReserveReleaseCommand,
    fingerprint: &str,
    existing: ExistingRelease,
) -> (replayed: Result<ReserveReleaseOutcome, ApiError>)
    ensures
        answers_used_key(replayed, command, fingerprint@, existing),
{
    validate_reserve_release_command(&command)?;
    let same = existing.delta_micro == -command.amount_micro && text::option_holds(
        &existing.audit_reference,
        command.reference_id.as_str(),
    ) && text::same_text(
        existing.entry_type.as_str(),
        reserve_entry_type(command.purpose),
    ) && text::option_holds(&existing.request_fingerprint, fingerprint);
    match (same, existing.operator_audit_id) {
        (true, Some(operator_audit_id)) => Ok(
            ReserveReleaseOutcome {
                operator_audit_id,
                release_id: existing.release_id,
                purpose: command.purpose,
                amount_micro: command.amount_micro,
                balance_before_micro: existing.balance_before_micro,
                balance_after_micro: existing.balance_after_micro,
                reference_id: command.reference_id,
                entry_hash: existing.entry_hash,
                idempotent_replay: true,
            },
        ),
        _ => Err(
            ApiError::conflict("idempotency_key_reused", "准备金幂等键已经用于不同释放请求"),
        ),
    }
}

/// The ledger entry of a new release.
#[derive(Clone, Copy, Debug, PartialEq, Eq, Structural)]
pub struct ReserveEntry {
    pub delta_micro: i64,
    pub balance_before_micro: i64,
    pub balance_after_micro: i64,
}

pub open spec fn release_entry(
    command: ReserveReleaseCommand,
    balance_before_micro: i64,
    answer: ReserveAnswer,
) -> Result<ReserveEntry, ApiError> {
    match (reserve_release_refusal(command), answer) {
        (Some(refused), _) => Err(refused),
        (None, ReserveAnswer::Released { balance_after_micro }) => Ok(
            ReserveEntry {
                delta_micro: (-command.amount_micro) as i64,
                balance_before_micro,
                balance_after_micro,
            },
        ),
        (None, ReserveAnswer::InsufficientBalance) => Err(
            ApiError::conflict("reserve_insufficient", "网络准备金余额不足"),
        ),
        (None, ReserveAnswer::Failed) => Err(ApiError::internal()),
    }
}

/// Turns the answer of the reserve into the entry of a new release.
pub fn release_reserve(
    command: &ReserveReleaseCommand,
    balance_before_micro: i64,
    answer: ReserveAnswer,
) -> (entry: Result<ReserveEntry, ApiError>)
    ensures
        entry == release_entry(*command, balance_before_micro, answer),
{
    validate_reserve_release_command(command)?;
    match answer {
        ReserveAnswer::Released { balance_after_micro } => Ok(
            ReserveEntry {
                delta_micro: -command.amount_micro,
                balance_before_micro,
                balance_after_micro,
            },
        ),
        ReserveAnswer::InsufficientBalance => Err(
            ApiError::conflict("reserve_insufficient", "网络准备金余额不足"),
        ),
        ReserveAnswer::Failed => Err(ApiError::internal()),
    }
}

/// What the ledger holds of a release that was made for an order.
pub open spec fn records_release(
    existing: ExistingRelease,
    command: ReserveReleaseCommand,
    entry: ReserveEntry,
) -> bool {
    &&& existing.entry_type@ == command.purpose.entry_name()
    &&& existing.delta_micro == entry.delta_micro
    &&& existing.balance_before_micro == entry.balance_before_micro
    &&& existing.balance_after_micro == entry.balance_after_micro
    &&& text::holds(existing.audit_reference, command.reference_id@)
    &&& text::holds(existing.request_fingerprint, order_fingerprint(command))
    &&& existing.operator_audit_id is Some
}

/// The same order in every part.
pub open spec fn same_order(first: ReserveReleaseCommand, second: ReserveReleaseCommand) -> bool {
    &&& second.purpose == first.purpose
    &&& second.amount_micro == first.amount_micro
    &&& second.reference_id@ == first.reference_id@
    &&& second.idempotency_key@ == first.idempotency_key@
    &&& second.operator_id@ == first.operator_id@
    &&& second.reason@ == first.reason@
}

proof fn lemma_purpose(
    first: ReservePurpose,
    x: Seq<char>,
    second: ReservePurpose,
    y: Seq<char>,
)
    requires
        first.entry_name() + x == second.entry_name() + y,
    ensures
        first == second,
        x == y,
{
    reveal_strlit("verification");
    reveal_strlit("retry");
    reveal_strlit("bandwidth");
    reveal_strlit("peak_capacity");
    assert("verification"@[0] == 'v');
    assert("retry"@[0] == 'r');
    assert("bandwidth"@[0] == 'b');
    assert("peak_capacity"@[0] == 'p');
    assert((first.entry_name() + x)[0] == first.entry_name()[0]);
    assert((second.entry_name() + y)[0] == second.entry_name()[0]);
    lemma_same_lead(first.entry_name(), x, y);
}

proof fn lemma_reference_lead()
    ensures
        ",\"reference_id\":"@.len() > 0 && ",\"reference_id\":"@[0] == ',',
{
    reveal_strlit(",\"reference_id\":");
}

/// The JSON object of an order covers all of it: orders with the same object are the same in
/// every part.
pub proof fn order_texts_cover_everything(
    first: ReserveReleaseCommand,
    second: ReserveReleaseCommand,
)
    requires
        fingerprint_json(first) == fingerprint_json(second),
    ensures
        same_order(first, second),
{
    lemma_reference_lead();
    let opening = "{\"schema_version\":1,\"purpose\":\""@;
    let a4 = text_member(",\"reason\":"@, first.reason@) + "}"@;
    let a3 = text_member(",\"operator_id\":"@, first.operator_id@) + a4;
    let a2 = text_member(",\"idempotency_key\":"@, first.idempotency_key@) + a3;
    let a1 = text_member(",\"reference_id\":"@, first.reference_id@) + a2;
    let a0 = number_member("\",\"amount_micro\":"@, first.amount_micro) + a1;
    let h = opening + first.purpose.entry_name();
    let h0 = h + number_member("\",\"amount_micro\":"@, first.amount_micro);
    let h1 = h0 + text_member(",\"reference_id\":"@, first.reference_id@);
    let h2 = h1 + text_member(",\"idempotency_key\":"@, first.idempotency_key@);
    let h3 = h2 + text_member(",\"operator_id\":"@, first.operator_id@);
    lemma_regroup(h3, text_member(",\"reason\":"@, first.reason@), "}"@);
    lemma_regroup(h2, text_member(",\"operator_id\":"@, first.operator_id@), a4);
    lemma_regroup(h1, text_member(",\"idempotency_key\":"@, first.idempotency_key@), a3);
    lemma_regroup(h0, text_member(",\"reference_id\":"@, first.reference_id@), a2);
    lemma_regroup(h, number_member("\",\"amount_micro\":"@, first.amount_micro), a1);
    lemma_regroup(opening, first.purpose.entry_name(), a0);
    let b4 = text_member(",\"reason\":"@, second.reason@) + "}"@;
    let b3 = text_member(",\"operator_id\":"@, second.operator_id@) + b4;
    let b2 = text_member(",\"idempotency_key\":"@, second.idempotency_key@) + b3;
    let b1 = text_member(",\"reference_id\":"@, second.reference_id@) + b2;
    let b0 = number_member("\",\"amount_micro\":"@, second.amount_micro) + b1;
    let k = opening + second.purpose.entry_name();
    let k0 = k + number_member("\",\"amount_micro\":"@, second.amount_micro);
    let k1 = k0 + text_member(",\"reference_id\":"@, second.reference_id@);
    let k2 = k1 + text_member(",\"idempotency_key\":"@, second.idempotency_key@);
    let k3 = k2 + text_member(",\"operator_id\":"@, second.operator_id@);
    lemma_regroup(k3, text_member(",\"reason\":"@, second.reason@), "}"@);
    lemma_regroup(k2, text_member(",\"operator_id\":"@, second.operator_id@), b4);
    lemma_regroup(k1, text_member(",\"idempotency_key\":"@, second.idempotency_key@), b3);
    lemma_regroup(k0, text_member(",\"reference_id\":"@, second.reference_id@), b2);
    lemma_regroup(k, number_member("\",\"amount_micro\":"@, second.amount_micro), b1);
    lemma_regroup(opening, second.purpose.entry_name(), b0);
    lemma_same_lead(
        opening,
        first.purpose.entry_name() + a0,
        second.purpose.entry_name() + b0,
    );
    lemma_purpose(first.purpose, a0, second.purpose, b0);
    assert(a1[0] == ',' && b1[0] == ',');
    lemma_member("\",\"amount_micro\":"@, first.amount_micro, a1, second.amount_micro, b1);
    lemma_text_member(",\"reference_id\":"@, first.reference_id@, a2, second.reference_id@, b2);
    lemma_text_member(",\"idempotency_key\":"@, first.idempotency_key@, a3, second.idempotency_key@, b3);
    lemma_text_member(",\"operator_id\":"@, first.operator_id@, a4, second.operator_id@, b4);
    lemma_text_member(",\"reason\":"@, first.reason@, "}"@, second.reason@, "}"@);
}

/// A key releases once. After a release, the same order is told of it with its identifiers,
/// its balances and its hash. An order under its key that differs in any part, the operator
/// and the reason among them, is a conflict, unless SHA-256 gives one digest for both.
/// Neither makes an entry.
pub proof fn releases_are_told_again(
    command: ReserveReleaseCommand,
    balance_before_micro: i64,
    balance_after_micro: i64,
    entry: ReserveEntry,
    existing: ExistingRelease,
    later: ReserveReleaseCommand,
    answer: Result<ReserveReleaseOutcome, ApiError>,
)
    requires
        release_entry(
            command,
            balance_before_micro,
            ReserveAnswer::Released { balance_after_micro },
        ) == Ok::<ReserveEntry, ApiError>(entry),
        records_release(existing, command, entry),
        reserve_release_refusal(later) is None,
        json_digest(later) == json_digest(command) ==> vstd::utf8::encode_utf8(
            fingerprint_json(later),
        ) == vstd::utf8::encode_utf8(fingerprint_json(command)),
        answers_used_key(answer, later, order_fingerprint(later), existing),
    ensures
        same_order(command, later) ==> (answer matches Ok(outcome) && {
            &&& outcome.idempotent_replay
            &&& outcome.release_id == existing.release_id
            &&& existing.operator_audit_id == Some(outcome.operator_audit_id)
            &&& outcome.purpose == command.purpose
            &&& outcome.amount_micro == command.amount_micro
            &&& outcome.balance_before_micro == balance_before_micro
            &&& outcome.balance_after_micro == balance_after_micro
            &&& outcome.entry_hash == existing.entry_hash
        }),
        !same_order(command, later) ==> answer == Err::<ReserveReleaseOutcome, ApiError>(
            ApiError::conflict("idempotency_key_reused", "准备金幂等键已经用于不同释放请求"),
        ),
{
    if repeats_release(later, order_fingerprint(later), existing) {
        text::lemma_lower_hex_injective(json_digest(later), json_digest(command));
        vstd::utf8::encode_utf8_decode_utf8(fingerprint_json(later));
        vstd::utf8::encode_utf8_decode_utf8(fingerprint_json(command));
        order_texts_cover_everything(command, later);
    }
}

/// The type of the ledger entries for each purpose.
pub proof fn purposes_have_their_entry_types()
    ensures
        ReservePurpose::ResultValidation.entry_name() == "verification"@,
        ReservePurpose::FailedRetry.entry_name() == "retry"@,
        ReservePurpose::BandwidthSubsidy.entry_name() == "bandwidth"@,
        ReservePurpose::PeakGuarantee.entry_name() == "peak_capacity"@,
{
}

/// An identifier has 1 to 128 characters, all of them ASCII letters, digits or one of six
/// signs, and begins with a letter or a digit.
pub proof fn identifiers_are_plain(value: Seq<char>)
    ensures
        is_operator_identifier(value) <==> 1 <= value.len() <= 128 && (('a' <= value[0] <= 'z') || (
        'A' <= value[0] <= 'Z') || ('0' <= value[0] <= '9')) && forall|i: int|
            0 <= i < value.len() ==> ('a' <= #[trigger] value[i] <= 'z') || ('A' <= value[i] <= 'Z')
                || ('0' <= value[i] <= '9') || value[i] == '.' || value[i] == '_' || value[i] == ':'
                || value[i] == '@' || value[i] == '/' || value[i] == '-',
{
}

/// An order is taken exactly if it is for a positive amount of at most a million points, under an
/// identifier, by an operator with one, with a reference of 1 to 255 bytes and a reason of 8 to
/// 512 characters, both without control characters and without white space around them.
pub proof fn orders_are_complete(command: ReserveReleaseCommand)
    ensures
        reserve_release_refusal(command) is None <==> {
            &&& 1 <= command.amount_micro <= 1_000_000_000_000
            &&& is_operator_identifier(command.idempotency_key@)
            &&& is_operator_identifier(command.operator_id@)
            &&& 1 <= command.reference_id@.len()
            &&& text::byte_length(command.reference_id@) <= 255
            &&& text::trimmed(command.reference_id@) == command.reference_id@
            &&& forall|i: int|
                0 <= i < command.reference_id@.len() ==> !text::is_control(
                    #[trigger] command.reference_id@[i],
                )
            &&& 8 <= command.reason@.len() <= 512
            &&& text::trimmed(command.reason@) == command.reason@
            &&& forall|i: int|
                0 <= i < command.reason@.len() ==> !text::is_control(#[trigger] command.reason@[i])
        },
{
}

/// An order that the reserve met is booked as what it took, and nothing else is booked.
pub proof fn releases_are_booked_as_what_they_take(
    command: ReserveReleaseCommand,
    balance_before_micro: i64,
    answer: ReserveAnswer,
)
    ensures
        reserve_release_refusal(command) is Some ==> release_entry(
            command,
            balance_before_micro,
            answer,
        ) is Err,
        reserve_release_refusal(command) is None ==> (
        answer matches ReserveAnswer::Released { balance_after_micro } ==> (release_entry(
            command,
            balance_before_micro,
            answer,
        ) matches Ok(entry) && entry.delta_micro + command.amount_micro == 0
            && entry.balance_before_micro == balance_before_micro && entry.balance_after_micro
            == balance_after_micro)),
        !(answer is Released) ==> release_entry(command, balance_before_micro, answer) is Err,
        reserve_release_refusal(command) is None && answer is InsufficientBalance ==> (
        release_entry(command, balance_before_micro, answer) matches Err(refused) && refused
            is Conflict),
{
}

/// A key that was used is answered with the entry under it, exactly for the order that made it.
pub proof fn used_keys_are_answered(
    command: ReserveReleaseCommand,
    fingerprint: Seq<char>,
    existing: ExistingRelease,
    replayed: Result<ReserveReleaseOutcome, ApiError>,
)
    requires
        answers_used_key(replayed, command, fingerprint, existing),
    ensures
        replayed is Ok <==> {
            &&& reserve_release_refusal(command) is None
            &&& existing.delta_micro + command.amount_micro == 0
            &&& existing.audit_reference matches Some(reference) && reference@
                == command.reference_id@
            &&& existing.entry_type@ == command.purpose.entry_name()
            &&& existing.request_fingerprint matches Some(stored) && stored@ == fingerprint
            &&& existing.operator_audit_id is Some
        },
        replayed matches Ok(outcome) ==> {
            &&& outcome.idempotent_replay
            &&& outcome.release_id == existing.release_id
            &&& Some(outcome.operator_audit_id) == existing.operator_audit_id
            &&& outcome.purpose == command.purpose
            &&& outcome.amount_micro == command.amount_micro
            &&& outcome.balance_before_micro == existing.balance_before_micro
            &&& outcome.balance_after_micro == existing.balance_after_micro
            &&& outcome.reference_id == command.reference_id
            &&& outcome.entry_hash == existing.entry_hash
        },
{
}

/// An order is refused for what is wrong with it first.
pub proof fn orders_are_refused_for_a_reason(command: ReserveReleaseCommand)
    ensures
        !(1 <= command.amount_micro <= 1_000_000_000_000) ==> (reserve_release_refusal(command)
            matches Some(ApiError::BadRequest { code, .. }) && code == "invalid_reserve_amount"),
        1 <= command.amount_micro <= 1_000_000_000_000 && !is_operator_identifier(
            command.idempotency_key@,
        ) ==> (reserve_release_refusal(command) matches Some(ApiError::BadRequest { code, .. })
            && code == "invalid_idempotency_key"),
        1 <= command.amount_micro <= 1_000_000_000_000 && is_operator_identifier(
            command.idempotency_key@,
        ) && !is_operator_identifier(command.operator_id@) ==> (reserve_release_refusal(command)
            matches Some(ApiError::BadRequest { code, .. }) && code == "invalid_operator"),
        reserve_release_refusal(command) matches Some(refused) ==> refused is BadRequest,
{
}

} // verus!
