//! The life of a job: creating it, leasing it to a node, renewing the lease, and
//! reporting that it failed.

use vstd::prelude::*;

use crate::arithmetic;
use crate::billing::{BillingQuote, JobBillingSnapshot, SERVER_REFERENCE_UPPER_BOUND_V1};
use crate::clock;
use crate::crypto;
use crate::error;
use crate::error::ApiError;
use crate::ids::Uuid;
use crate::policy;
use crate::policy::PolicyDecision;
use crate::regulated;
use crate::selection::SelectedModel;
use crate::settlement;
use crate::settlement::{is_id, release_reservation};
use crate::standard_data;
use crate::standard_data::{StorageDirection, STORAGE_VERSION};
use crate::streams::{check_transcript, Endpoint, StreamTranscript};
use crate::text;

verus! {

/// What an identifier stands for.
#[derive(Clone, Copy, Debug, PartialEq, Eq, Structural)]
pub enum WorkItemKind {
    Ordinary,
    Hidden,
    Missing,
}

/// Tells what an identifier stands for. One that stands for two things is an
/// internal error: which of them was found first decides nothing.
pub fn work_item_kind(ordinary: bool, hidden: bool) -> (kind: Result<WorkItemKind, ApiError>)
    ensures
        kind == match (ordinary, hidden) {
            (true, false) => Ok::<WorkItemKind, ApiError>(WorkItemKind::Ordinary),
            (false, true) => Ok::<WorkItemKind, ApiError>(WorkItemKind::Hidden),
            (false, false) => Ok::<WorkItemKind, ApiError>(WorkItemKind::Missing),
            (true, true) => Err::<WorkItemKind, ApiError>(ApiError::internal()),
        },
{
    match (ordinary, hidden) {
        (true, false) => Ok(WorkItemKind::Ordinary),
        (false, true) => Ok(WorkItemKind::Hidden),
        (false, false) => Ok(WorkItemKind::Missing),
        (true, true) => Err(ApiError::internal()),
    }
}

/// How a payload is written.
#[derive(Clone, Copy, Debug, PartialEq, Eq, Structural)]
pub enum PayloadEncoding {
    Base64,
    Base64Url,
    RegulatedAeadV1,
}

impl PayloadEncoding {
    pub open spec fn name(self) -> Seq<char> {
        match self {
            PayloadEncoding::Base64 => "base64"@,
            PayloadEncoding::Base64Url => "base64url"@,
            PayloadEncoding::RegulatedAeadV1 => "regulated_aead_v1"@,
        }
    }
}

pub fn payload_encoding_from_db(value: &str) -> (encoding: Result<PayloadEncoding, ApiError>)
    ensures
        encoding matches Ok(encoding) ==> encoding.name() == value@,
        encoding matches Err(refused) ==> refused == ApiError::internal() && forall|
            encoding: PayloadEncoding,
        |
            #[trigger] encoding.name() != value@,
{
    if text::same_text(value, "base64") {
        Ok(PayloadEncoding::Base64)
    } else if text::same_text(value, "base64url") {
        Ok(PayloadEncoding::Base64Url)
    } else if text::same_text(value, "regulated_aead_v1") {
        Ok(PayloadEncoding::RegulatedAeadV1)
    } else {
        Err(ApiError::internal())
    }
}

/// Whether the coordinator can read a job.
#[derive(Clone, Copy, Debug, PartialEq, Eq, Structural)]
pub enum ConfidentialityMode {
    Standard,
    Regulated,
}

impl ConfidentialityMode {
    pub open spec fn name(self) -> Seq<char> {
        match self {
            ConfidentialityMode::Standard => "standard"@,
            ConfidentialityMode::Regulated => "regulated"@,
        }
    }
}

pub fn confidentiality_from_db(value: &str) -> (mode: Result<ConfidentialityMode, ApiError>)
    ensures
        mode matches Ok(mode) ==> mode.name() == value@,
        mode matches Err(refused) ==> refused == ApiError::internal() && forall|
            mode: ConfidentialityMode,
        |
            #[trigger] mode.name() != value@,
{
    if text::same_text(value, "standard") {
        Ok(ConfidentialityMode::Standard)
    } else if text::same_text(value, "regulated") {
        Ok(ConfidentialityMode::Regulated)
    } else {
        Err(ApiError::internal())
    }
}

/// Where a job stands.
#[derive(Clone, Copy, Debug, PartialEq, Eq, Structural)]
pub enum JobStatus {
    Queued,
    Retry,
    Leased,
    Succeeded,
    Failed,
    Cancelled,
}

impl JobStatus {
    pub open spec fn name(self) -> Seq<char> {
        match self {
            JobStatus::Queued => "queued"@,
            JobStatus::Retry => "retry"@,
            JobStatus::Leased => "leased"@,
            JobStatus::Succeeded => "succeeded"@,
            JobStatus::Failed => "failed"@,
            JobStatus::Cancelled => "cancelled"@,
        }
    }
}

pub fn job_status_from_db(value: &str) -> (status: Result<JobStatus, ApiError>)
    ensures
        status matches Ok(status) ==> status.name() == value@,
        status matches Err(refused) ==> refused == ApiError::internal() && forall|
            status: JobStatus,
        |
            #[trigger] status.name() != value@,
{
    if text::same_text(value, "queued") {
        Ok(JobStatus::Queued)
    } else if text::same_text(value, "retry") {
        Ok(JobStatus::Retry)
    } else if text::same_text(value, "leased") {
        Ok(JobStatus::Leased)
    } else if text::same_text(value, "succeeded") {
        Ok(JobStatus::Succeeded)
    } else if text::same_text(value, "failed") {
        Ok(JobStatus::Failed)
    } else if text::same_text(value, "cancelled") {
        Ok(JobStatus::Cancelled)
    } else {
        Err(ApiError::internal())
    }
}

/// Different statuses have different names, so a stored status is read back as the
/// one that was stored.
pub proof fn statuses_are_told_apart(first: JobStatus, second: JobStatus)
    requires
        first.name() == second.name(),
    ensures
        first == second,
{
    reveal_strlit("queued");
    reveal_strlit("retry");
    reveal_strlit("leased");
    reveal_strlit("succeeded");
    reveal_strlit("failed");
    reveal_strlit("cancelled");
    assert("queued"@[0] == 'q');
    assert("retry"@[0] == 'r');
    assert("leased"@[0] == 'l');
    assert("succeeded"@[0] == 's');
    assert("failed"@[0] == 'f');
    assert("cancelled"@[0] == 'c');
}

/// Why an attempt failed.
#[derive(Clone, Copy, Debug, PartialEq, Eq, Structural)]
pub enum JobErrorClass {
    Engine,
    Model,
    Policy,
    Timeout,
    ResourceExhausted,
    NodeDisconnected,
    InvalidRequest,
    Internal,
    Attestation,
}

impl JobErrorClass {
    pub open spec fn key(self) -> Seq<char> {
        match self {
            JobErrorClass::Engine => "engine"@,
            JobErrorClass::Model => "model"@,
            JobErrorClass::Policy => "policy"@,
            JobErrorClass::Timeout => "timeout"@,
            JobErrorClass::ResourceExhausted => "resource_exhausted"@,
            JobErrorClass::NodeDisconnected => "node_disconnected"@,
            JobErrorClass::InvalidRequest => "invalid_request"@,
            JobErrorClass::Internal => "internal"@,
            JobErrorClass::Attestation => "attestation"@,
        }
    }
}

pub fn job_error_class_key(error_class: JobErrorClass) -> (key: &'static str)
    ensures
        key@ == error_class.key(),
{
    match error_class {
        JobErrorClass::Engine => "engine",
        JobErrorClass::Model => "model",
        JobErrorClass::Policy => "policy",
        JobErrorClass::Timeout => "timeout",
        JobErrorClass::ResourceExhausted => "resource_exhausted",
        JobErrorClass::NodeDisconnected => "node_disconnected",
        JobErrorClass::InvalidRequest => "invalid_request",
        JobErrorClass::Internal => "internal",
        JobErrorClass::Attestation => "attestation",
    }
}

/// The class that a stored key is reported as: an expired lease is a timeout, and a
/// key that no class has is internal.
pub open spec fn stable_class(value: Seq<char>) -> JobErrorClass {
    if value == "engine"@ {
        JobErrorClass::Engine
    } else if value == "model"@ {
        JobErrorClass::Model
    } else if value == "policy"@ {
        JobErrorClass::Policy
    } else if value == "timeout"@ || value == "lease_expired"@ {
        JobErrorClass::Timeout
    } else if value == "resource_exhausted"@ {
        JobErrorClass::ResourceExhausted
    } else if value == "node_disconnected"@ {
        JobErrorClass::NodeDisconnected
    } else if value == "invalid_request"@ {
        JobErrorClass::InvalidRequest
    } else if value == "attestation"@ {
        JobErrorClass::Attestation
    } else {
        JobErrorClass::Internal
    }
}

pub fn stable_job_error_class(value: &Option<String>) -> (class: Option<JobErrorClass>)
    ensures
        class == match *value {
            Some(value) => Some(stable_class(value@)),
            None => None,
        },
{
    match value {
        None => None,
        Some(value) => {
            let value = value.as_str();
            Some(
                if text::same_text(value, "engine") {
                    JobErrorClass::Engine
                } else if text::same_text(value, "model") {
                    JobErrorClass::Model
                } else if text::same_text(value, "policy") {
                    JobErrorClass::Policy
                } else if text::same_text(value, "timeout") || text::same_text(
                    value,
                    "lease_expired",
                ) {
                    JobErrorClass::Timeout
                } else if text::same_text(value, "resource_exhausted") {
                    JobErrorClass::ResourceExhausted
                } else if text::same_text(value, "node_disconnected") {
                    JobErrorClass::NodeDisconnected
                } else if text::same_text(value, "invalid_request") {
                    JobErrorClass::InvalidRequest
                } else if text::same_text(value, "attestation") {
                    JobErrorClass::Attestation
                } else {
                    JobErrorClass::Internal
                },
            )
        },
    }
}

/// A class that was stored under its key is reported as the same class.
pub proof fn error_classes_survive_storage(class: JobErrorClass)
    ensures
        stable_class(class.key()) == class,
{
    reveal_strlit("engine");
    reveal_strlit("model");
    reveal_strlit("policy");
    reveal_strlit("timeout");
    reveal_strlit("lease_expired");
    reveal_strlit("resource_exhausted");
    reveal_strlit("node_disconnected");
    reveal_strlit("invalid_request");
    reveal_strlit("internal");
    reveal_strlit("attestation");
    assert("engine"@[0] == 'e');
    assert("model"@[0] == 'm');
    assert("policy"@[0] == 'p');
    assert("timeout"@[0] == 't');
    assert("lease_expired"@[0] == 'l');
    assert("resource_exhausted"@[0] == 'r');
    assert("node_disconnected"@[0] == 'n');
    assert("invalid_request"@[2] == 'v');
    assert("internal"@[2] == 't');
    assert("internal"@[0] == 'i');
    assert("invalid_request"@[0] == 'i');
    assert("attestation"@[0] == 'a');
}

pub const MAX_PAYLOAD_BYTES: usize = 900_000;

/// The bytes of a Standard payload, or why it is refused.
pub open spec fn decoded_payload(encoding: PayloadEncoding, encoded: Seq<char>) -> Result<
    Seq<u8>,
    ApiError,
> {
    match encoding {
        PayloadEncoding::RegulatedAeadV1 => Err(
            ApiError::bad_request("invalid_job", "Standard 接口不接受 Regulated envelope"),
        ),
        _ => {
            let decoded = if encoding == PayloadEncoding::Base64 {
                crypto::base64_bytes(encoded)
            } else {
                crypto::base64_url_bytes(encoded)
            };
            match decoded {
                None => Err(
                    ApiError::bad_request("invalid_standard_payload", "任务载荷 Base64 无效"),
                ),
                Some(bytes) => if bytes.len() == 0 || bytes.len() > MAX_PAYLOAD_BYTES {
                    Err(
                        ApiError::bad_request(
                            "invalid_standard_payload",
                            "任务载荷解码后为空或超过大小上限",
                        ),
                    )
                } else {
                    Ok(bytes)
                },
            }
        },
    }
}

/// Decodes a Standard payload of bounded size.
pub fn decode_standard_payload(encoding: PayloadEncoding, encoded: &str) -> (decoded: Result<
    Vec<u8>,
    ApiError,
>)
    ensures
        match decoded {
            Ok(bytes) => decoded_payload(encoding, encoded@) == Ok::<Seq<u8>, ApiError>(bytes@),
            Err(refused) => decoded_payload(encoding, encoded@) == Err::<Seq<u8>, ApiError>(
                refused,
            ),
        },
{
    let decoded = match encoding {
        PayloadEncoding::Base64 => crypto::base64_decode(encoded),
        PayloadEncoding::Base64Url => crypto::base64_url_decode(encoded),
        PayloadEncoding::RegulatedAeadV1 => {
            return Err(
                ApiError::bad_request("invalid_job", "Standard 接口不接受 Regulated envelope"),
            );
        },
    };
    match decoded {
        None => Err(ApiError::bad_request("invalid_standard_payload", "任务载荷 Base64 无效")),
        Some(bytes) => if bytes.len() == 0 || bytes.len() > MAX_PAYLOAD_BYTES {
            Err(
                ApiError::bad_request(
                    "invalid_standard_payload",
                    "任务载荷解码后为空或超过大小上限",
                ),
            )
        } else {
            Ok(bytes)
        },
    }
}

/// The text that was stored for a job under a direction, if it is stored whole and
/// in the present version.
pub open spec fn stored_text(
    key: Seq<u8>,
    job_id: Uuid,
    direction: StorageDirection,
    version: Option<i16>,
    stored: Seq<char>,
) -> Option<Seq<char>> {
    if version != Some(STORAGE_VERSION) {
        None
    } else {
        match standard_data::stored_value(key, job_id, direction, stored) {
            Some(plaintext) => text::decoded(plaintext),
            None => None,
        }
    }
}

/// Reads a stored text back; one that is not stored whole is an internal error.
pub fn open_stored_text(
    key: &[u8; 32],
    job_id: Uuid,
    direction: StorageDirection,
    version: Option<i16>,
    stored: &str,
) -> (opened: Result<String, ApiError>)
    ensures
        match opened {
            Ok(text) => stored_text(key@, job_id, direction, version, stored@) == Some(text@),
            Err(refused) => stored_text(key@, job_id, direction, version, stored@) is None
                && refused == ApiError::internal(),
        },
{
    match version {
        Some(version) => if version != STORAGE_VERSION {
            return Err(ApiError::internal());
        },
        None => {
            return Err(ApiError::internal());
        },
    }
    match standard_data::decrypt_from_storage(key, job_id, direction, stored) {
        Ok(plaintext) => match text::from_utf8(plaintext) {
            Some(text) => Ok(text),
            None => Err(ApiError::internal()),
        },
        Err(_) => Err(ApiError::internal()),
    }
}

/// Reads the payload of a Standard job back and decodes it.
pub fn decode_stored_standard_payload(
    key: &[u8; 32],
    job_id: Uuid,
    version: Option<i16>,
    stored: &str,
    encoding: &str,
) -> (decoded: Result<Vec<u8>, ApiError>)
    ensures
        match stored_text(key@, job_id, StorageDirection::Payload, version, stored@) {
            None => decoded == Err::<Vec<u8>, ApiError>(ApiError::internal()),
            Some(wire) => {
                &&& (forall|named: PayloadEncoding| #[trigger] named.name() != encoding@)
                    ==> decoded == Err::<Vec<u8>, ApiError>(ApiError::internal())
                &&& forall|named: PayloadEncoding| #[trigger]
                    named.name() == encoding@ ==> match decoded {
                        Ok(bytes) => decoded_payload(named, wire) == Ok::<Seq<u8>, ApiError>(
                            bytes@,
                        ),
                        Err(refused) => decoded_payload(named, wire) == Err::<Seq<u8>, ApiError>(
                            refused,
                        ),
                    }
            },
        },
{
    let mut wire = open_stored_text(key, job_id, StorageDirection::Payload, version, stored)?;
    let named = payload_encoding_from_db(encoding)?;
    let decoded = decode_standard_payload(named, wire.as_str());
    crypto::wipe_text(&mut wire);
    proof {
        assert forall|other: PayloadEncoding| #[trigger] other.name() == encoding@ implies other
            == named by {
            lemma_encodings_are_told_apart(other, named);
        }
    }
    decoded
}

/// The encoding that the payload of a Standard job is stored in, where a result is checked
/// against it: a Regulated envelope has no place there.
pub open spec fn standard_encoding(encoding: Seq<char>) -> Option<PayloadEncoding> {
    if encoding == PayloadEncoding::Base64.name() {
        Some(PayloadEncoding::Base64)
    } else if encoding == PayloadEncoding::Base64Url.name() {
        Some(PayloadEncoding::Base64Url)
    } else {
        None
    }
}

/// Reads back the payload that the result of a Standard job is checked against. An encoding
/// that no Standard job is stored in, or a payload that is not stored whole, is an internal
/// error.
pub fn decode_payload_for_result(
    key: &[u8; 32],
    job_id: Uuid,
    version: Option<i16>,
    stored: &str,
    encoding: &str,
) -> (decoded: Result<Vec<u8>, ApiError>)
    ensures
        match (
            standard_encoding(encoding@),
            stored_text(key@, job_id, StorageDirection::Payload, version, stored@),
        ) {
            (Some(named), Some(wire)) => match decoded {
                Ok(bytes) => decoded_payload(named, wire) == Ok::<Seq<u8>, ApiError>(bytes@),
                Err(refused) => decoded_payload(named, wire) == Err::<Seq<u8>, ApiError>(refused),
            },
            _ => decoded == Err::<Vec<u8>, ApiError>(ApiError::internal()),
        },
{
    let named = if text::same_text(encoding, "base64") {
        PayloadEncoding::Base64
    } else if text::same_text(encoding, "base64url") {
        PayloadEncoding::Base64Url
    } else {
        return Err(ApiError::internal());
    };
    let mut wire = open_stored_text(key, job_id, StorageDirection::Payload, version, stored)?;
    let decoded = decode_standard_payload(named, wire.as_str());
    crypto::wipe_text(&mut wire);
    decoded
}

proof fn lemma_encodings_are_told_apart(first: PayloadEncoding, second: PayloadEncoding)
    requires
        first.name() == second.name(),
    ensures
        first == second,
{
    reveal_strlit("base64");
    reveal_strlit("base64url");
    reveal_strlit("regulated_aead_v1");
    assert("base64"@.len() == 6);
    assert("base64url"@.len() == 9);
    assert("regulated_aead_v1"@.len() == 17);
}

/// What a payload asks for, as the inference protocol reads it.
pub struct StandardLimits {
    pub model: String,
    pub minimum_input_tokens: i32,
    pub maximum_output_tokens: i32,
    pub stream: bool,
}

/// A request to create a Standard job.
pub struct CreateJobRequest {
    pub virtual_model: String,
    pub encrypted_payload: String,
    pub payload_encoding: PayloadEncoding,
    pub estimated_input_tokens: i32,
    pub max_output_tokens: i32,
}

/// The bytes of the payload of a request, or why it is refused.
pub open spec fn requested_payload(request: CreateJobRequest) -> Result<Seq<u8>, ApiError> {
    if request.payload_encoding == PayloadEncoding::RegulatedAeadV1 {
        Err(ApiError::bad_request("invalid_job", "Regulated envelope 必须使用独立的两阶段接口"))
    } else {
        decoded_payload(request.payload_encoding, request.encrypted_payload@)
    }
}

/// Decodes the payload of a request. A Regulated envelope has an interface of its
/// own.
pub fn decode_requested_payload(request: &CreateJobRequest) -> (decoded: Result<Vec<u8>, ApiError>)
    ensures
        match decoded {
            Ok(bytes) => requested_payload(*request) == Ok::<Seq<u8>, ApiError>(bytes@),
            Err(refused) => requested_payload(*request) == Err::<Seq<u8>, ApiError>(refused),
        },
{
    if request.payload_encoding == PayloadEncoding::RegulatedAeadV1 {
        return Err(
            ApiError::bad_request("invalid_job", "Regulated envelope 必须使用独立的两阶段接口"),
        );
    }
    decode_standard_payload(request.payload_encoding, request.encrypted_payload.as_str())
}

/// A Standard request that was found valid.
pub struct ValidatedStandardJob {
    pub request_fingerprint: String,
    pub stream: bool,
}

pub open spec fn create_refusal(request: CreateJobRequest, limits: StandardLimits) -> Option<
    ApiError,
> {
    if limits.model@ != request.virtual_model@ {
        Some(
            ApiError::bad_request(
                "model_binding_mismatch",
                "任务路由模型与推理载荷模型不一致",
            ),
        )
    } else if request.estimated_input_tokens < limits.minimum_input_tokens
        || request.max_output_tokens < limits.maximum_output_tokens {
        Some(
            ApiError::bad_request(
                "usage_authorization_too_small",
                "任务 Token 授权小于载荷声明所需的安全上限",
            ),
        )
    } else {
        None
    }
}

/// Checks a request against what its payload asks for: the same model, and tokens
/// enough for it. The fingerprint binds the serialised request.
pub fn validate_create_job(
    request: &CreateJobRequest,
    limits: &StandardLimits,
    standard_data_key: &[u8; 32],
    serialized_request: &[u8],
) -> (validated: Result<ValidatedStandardJob, ApiError>)
    ensures
        error::refusal(validated) == create_refusal(*request, *limits),
        validated matches Ok(job) ==> job.stream == limits.stream && job.request_fingerprint@
            == standard_data::keyed_fingerprint(
            standard_data_key@,
            standard_data::request_digest(serialized_request@),
        ),
{
    if !text::same_text(limits.model.as_str(), request.virtual_model.as_str()) {
        return Err(
            ApiError::bad_request(
                "model_binding_mismatch",
                "任务路由模型与推理载荷模型不一致",
            ),
        );
    }
    if request.estimated_input_tokens < limits.minimum_input_tokens || request.max_output_tokens
        < limits.maximum_output_tokens {
        return Err(
            ApiError::bad_request(
                "usage_authorization_too_small",
                "任务 Token 授权小于载荷声明所需的安全上限",
            ),
        );
    }
    match standard_data::request_fingerprint(standard_data_key, serialized_request) {
        Ok(request_fingerprint) => Ok(
            ValidatedStandardJob { request_fingerprint, stream: limits.stream },
        ),
        Err(_) => Err(ApiError::internal()),
    }
}

/// Checks that a key which was used before was used for the same request.
pub fn check_existing_job(
    stored_fingerprint: &Option<String>,
    request_fingerprint: &str,
) -> (checked: Result<(), ApiError>)
    ensures
        checked == if text::holds(*stored_fingerprint, request_fingerprint@) {
            Ok::<(), ApiError>(())
        } else {
            Err::<(), ApiError>(
                ApiError::conflict(
                    "idempotency_binding_mismatch",
                    "Standard 创建幂等键已绑定到不同请求内容",
                ),
            )
        },
{
    if !text::option_holds(stored_fingerprint, request_fingerprint) {
        return Err(
            ApiError::conflict(
                "idempotency_binding_mismatch",
                "Standard 创建幂等键已绑定到不同请求内容",
            ),
        );
    }
    Ok(())
}

/// What an account has left to reserve.
pub open spec fn available(spendable: int, reserved: int) -> int {
    arithmetic::clamped_i64(spendable - reserved)
}

/// The reservations of an account once a new one is added, or why it is not added.
pub open spec fn reserved_after(spendable: int, reserved: int, reservation: int) -> Result<
    i64,
    ApiError,
> {
    if available(spendable, reserved) < reservation {
        Err(ApiError::insufficient_quota())
    } else if i64::MIN <= reserved + reservation <= i64::MAX {
        Ok((reserved + reservation) as i64)
    } else {
        Err(ApiError::internal())
    }
}

/// Reserves the cost of a job, if the account has that much left.
pub fn reserve_quota(spendable_micro: i64, reserved_micro: i64, reservation_micro: i64) -> (reserved: Result<
    i64,
    ApiError,
>)
    ensures
        reserved == reserved_after(
            spendable_micro as int,
            reserved_micro as int,
            reservation_micro as int,
        ),
{
    if arithmetic::saturating_sub_i64(spendable_micro, reserved_micro) < reservation_micro {
        return Err(ApiError::insufficient_quota());
    }
    arithmetic::add_i64(reserved_micro, reservation_micro)
}

/// An account never reserves more than it can spend.
pub proof fn reservations_stay_covered(spendable: i64, reserved: i64, reservation: i64)
    requires
        0 <= reserved,
        0 <= reservation,
        reserved_after(spendable as int, reserved as int, reservation as int) is Ok,
    ensures
        reserved_after(spendable as int, reserved as int, reservation as int)->Ok_0 <= spendable,
{
}

/// Releasing a reservation undoes making it.
pub proof fn releasing_undoes_reserving(spendable: i64, reserved: i64, reservation: i64)
    requires
        0 <= reserved,
        reserved_after(spendable as int, reserved as int, reservation as int) is Ok,
    ensures
        settlement::released_reservation(
            reserved_after(spendable as int, reserved as int, reservation as int)->Ok_0 as int,
            reservation as int,
        ) == Ok::<i64, ApiError>(reserved),
{
}

pub open spec fn attempts(stream: bool, max_job_retries: i32) -> i32 {
    if stream || max_job_retries < 1 {
        1
    } else if max_job_retries == i32::MAX {
        i32::MAX
    } else {
        (max_job_retries + 1) as i32
    }
}

/// How often a job is tried. A streaming job is tried once: a second attempt could
/// not be joined to output that was seen.
pub fn attempts_allowed(stream: bool, max_job_retries: i32) -> (allowed: i32)
    ensures
        allowed == attempts(stream, max_job_retries),
{
    if stream || max_job_retries < 1 {
        1
    } else if max_job_retries == i32::MAX {
        i32::MAX
    } else {
        max_job_retries + 1
    }
}

/// Checks who looks at a job: its consumer, or the account whose node has it.
pub fn authorize_view(viewer: Uuid, consumer: Uuid, node_user: Option<Uuid>) -> (authorized: Result<
    (),
    ApiError,
>)
    ensures
        authorized == if consumer == viewer || node_user == Some(viewer) {
            Ok::<(), ApiError>(())
        } else {
            Err::<(), ApiError>(ApiError::forbidden("无权查看此任务"))
        },
{
    if consumer != viewer && !is_id(node_user, viewer) {
        return Err(ApiError::forbidden("无权查看此任务"));
    }
    Ok(())
}

/// The result that a viewer gets to see: the consumer sees what is stored, in the
/// clear for a Standard job; anybody else sees nothing.
pub fn visible_result(
    key: &[u8; 32],
    job_id: Uuid,
    is_consumer: bool,
    confidentiality: &str,
    stored: Option<String>,
    version: Option<i16>,
) -> (visible: Result<Option<String>, ApiError>)
    ensures
        !is_consumer || stored is None ==> visible == Ok::<Option<String>, ApiError>(None),
        is_consumer && stored is Some && confidentiality@ != "standard"@ ==> visible == Ok::<
            Option<String>,
            ApiError,
        >(stored),
        is_consumer && stored is Some && confidentiality@ == "standard"@ ==> match stored_text(
            key@,
            job_id,
            StorageDirection::Result,
            version,
            stored->0@,
        ) {
            Some(text) => visible matches Ok(Some(shown)) && shown@ == text,
            None => visible == Err::<Option<String>, ApiError>(ApiError::internal()),
        },
{
    if !is_consumer {
        return Ok(None);
    }
    match stored {
        None => Ok(None),
        Some(stored) => if text::same_text(confidentiality, "standard") {
            let shown = open_stored_text(
                key,
                job_id,
                StorageDirection::Result,
                version,
                stored.as_str(),
            )?;
            Ok(Some(shown))
        } else {
            Ok(Some(stored))
        },
    }
}

/// A node takes work only while it is online.
pub fn check_claiming_node(status: &str) -> (checked: Result<(), ApiError>)
    ensures
        checked == if status@ == "online"@ {
            Ok::<(), ApiError>(())
        } else {
            Err::<(), ApiError>(ApiError::policy_rejected("节点当前未处于在线接单状态"))
        },
{
    if !text::same_text(status, "online") {
        return Err(ApiError::policy_rejected("节点当前未处于在线接单状态"));
    }
    Ok(())
}

/// The number of the next attempt.
pub fn next_attempt(previous: i32) -> (attempt: i32)
    ensures
        attempt == if previous == i32::MAX {
            i32::MAX
        } else {
            (previous + 1) as i32
        },
{
    if previous == i32::MAX {
        i32::MAX
    } else {
        previous + 1
    }
}

/// A lease is written only for an instance that is still published and not in
/// quarantine; `None` stands for an instance that is gone.
pub fn instance_can_be_leased(quarantined: bool, instance_status: &Option<String>) -> (can: bool)
    ensures
        can == (!quarantined && text::holds(*instance_status, "published"@)),
{
    !quarantined && text::option_holds(instance_status, "published")
}

/// The payload that a node gets with its lease.
pub fn leased_payload(
    key: &[u8; 32],
    job_id: Uuid,
    confidentiality: &str,
    version: Option<i16>,
    stored: String,
) -> (payload: Result<String, ApiError>)
    ensures
        confidentiality@ != "standard"@ ==> payload == Ok::<String, ApiError>(stored),
        confidentiality@ == "standard"@ ==> match stored_text(
            key@,
            job_id,
            StorageDirection::Payload,
            version,
            stored@,
        ) {
            Some(text) => payload matches Ok(clear) && clear@ == text,
            None => payload == Err::<String, ApiError>(ApiError::internal()),
        },
{
    if text::same_text(confidentiality, "standard") {
        open_stored_text(key, job_id, StorageDirection::Payload, version, stored.as_str())
    } else {
        Ok(stored)
    }
}

/// Where the hardware evidence of a node comes from.
#[derive(Clone, Copy, Debug, PartialEq, Eq, Structural)]
pub enum AttestationProvider {
    AmdSevSnp,
    IntelTdx,
}

impl AttestationProvider {
    pub open spec fn name(self) -> Seq<char> {
        match self {
            AttestationProvider::AmdSevSnp => "amd_sev_snp"@,
            AttestationProvider::IntelTdx => "intel_tdx"@,
        }
    }
}

pub fn attestation_provider_from_db(value: &str) -> (provider: Result<
    AttestationProvider,
    ApiError,
>)
    ensures
        provider matches Ok(provider) ==> provider.name() == value@,
        provider matches Err(refused) ==> refused == ApiError::internal() && forall|
            provider: AttestationProvider,
        |
            #[trigger] provider.name() != value@,
{
    if text::same_text(value, "amd_sev_snp") {
        Ok(AttestationProvider::AmdSevSnp)
    } else if text::same_text(value, "intel_tdx") {
        Ok(AttestationProvider::IntelTdx)
    } else {
        Err(ApiError::internal())
    }
}

/// What a node gets with its lease.
pub struct ClaimJobResponse {
    pub job_id: Uuid,
    pub model_instance_id: Uuid,
    pub model: String,
    pub model_weights_hash: String,
    pub encrypted_payload: String,
    pub payload_encoding: PayloadEncoding,
    pub tags: Vec<String>,
    pub estimated_input_tokens: i32,
    pub max_output_tokens: i32,
    pub attempt: i32,
    pub lease_expires_at: i128,
    pub policy_check_required_before_execution: bool,
    pub confidentiality: ConfidentialityMode,
    pub regulated_route_id: Option<Uuid>,
    pub attestation_report_id: Option<Uuid>,
    pub attestation_provider: Option<AttestationProvider>,
    pub tee_public_key: Option<String>,
}

impl ClaimJobResponse {
    /// Overwrites the payload and the key of the hardware.
    pub fn zeroize_owned(&mut self)
        ensures
            final(self).encrypted_payload@.len() == 0,
            final(self).tee_public_key is Some <==> old(self).tee_public_key is Some,
            final(self).tee_public_key matches Some(key) ==> key@.len() == 0,
            *final(self) == (ClaimJobResponse {
                encrypted_payload: final(self).encrypted_payload,
                tee_public_key: final(self).tee_public_key,
                ..*old(self)
            }),
    {
        crypto::wipe_text(&mut self.encrypted_payload);
        match self.tee_public_key.take() {
            Some(mut key) => {
                crypto::wipe_text(&mut key);
                self.tee_public_key = Some(key);
            },
            None => {},
        }
    }
}

#[verifier::allow_in_spec]
pub fn lease_not_renewable() -> ApiError
    returns
        ApiError::conflict("lease_not_renewable", "任务租约不存在、已过期或不属于当前节点"),
{
    ApiError::conflict("lease_not_renewable", "任务租约不存在、已过期或不属于当前节点")
}

/// A node can renew while it is online, paused or draining.
pub fn check_renewing_node(status: &str) -> (checked: Result<(), ApiError>)
    ensures
        checked == if status@ == "online"@ || status@ == "paused"@ || status@ == "draining"@ {
            Ok::<(), ApiError>(())
        } else {
            Err::<(), ApiError>(ApiError::policy_rejected("节点策略当前暂停执行"))
        },
{
    if !text::same_text(status, "online") && !text::same_text(status, "paused")
        && !text::same_text(status, "draining") {
        return Err(ApiError::policy_rejected("节点策略当前暂停执行"));
    }
    Ok(())
}

/// What a request to renew a lease comes to.
#[derive(Clone, Copy, Debug, PartialEq, Eq, Structural)]
pub enum RenewalStep {
    /// The Regulated lease lost its hardware trust: the job ends without a charge.
    TerminateLease,
    /// The lease is renewed, if the policy of the node still allows it.
    Renew,
}

/// Decides over a renewal. `claim_device_bound` says whether the device that asks
/// holds the live lease; `None` stands for a lease that is not there.
pub fn plan_renewal(
    claim_device_bound: Option<bool>,
    confidentiality: &str,
    regulated_lease_valid: bool,
) -> (step: Result<RenewalStep, ApiError>)
    ensures
        step == if claim_device_bound != Some(true) {
            Err::<RenewalStep, ApiError>(lease_not_renewable())
        } else if confidentiality@ == "regulated"@ && !regulated_lease_valid {
            Ok::<RenewalStep, ApiError>(RenewalStep::TerminateLease)
        } else {
            Ok::<RenewalStep, ApiError>(RenewalStep::Renew)
        },
{
    match claim_device_bound {
        Some(bound) => if !bound {
            return Err(lease_not_renewable());
        },
        None => {
            return Err(lease_not_renewable());
        },
    }
    if text::same_text(confidentiality, "regulated") && !regulated_lease_valid {
        return Ok(RenewalStep::TerminateLease);
    }
    Ok(RenewalStep::Renew)
}

/// What is answered once a Regulated lease was terminated at its renewal.
#[verifier::allow_in_spec]
pub fn renewal_trust_lost() -> ApiError
    returns
        ApiError::attestation_failed(
            "Regulated 硬件信任已失效；任务已终止、reservation 已释放且未计费",
        ),
{
    ApiError::attestation_failed(
        "Regulated 硬件信任已失效；任务已终止、reservation 已释放且未计费",
    )
}

/// A report that an attempt failed.
pub struct JobFailRequest {
    pub node_id: Uuid,
    pub idempotency_key: String,
    pub error_class: JobErrorClass,
    pub error_message: String,
    pub retryable: bool,
}

/// A failure that was reported under a key.
pub struct ReportedFailure {
    pub node_id: Uuid,
    pub node_user_id: Uuid,
    pub claim_device_bound: bool,
    pub error_class: Option<String>,
    pub error_message: Option<String>,
    pub retryable_requested: Option<bool>,
}

pub open spec fn repeated_failure_refusal(
    request: JobFailRequest,
    worker_user_id: Uuid,
    existing: ReportedFailure,
) -> Option<ApiError> {
    if existing.node_user_id != worker_user_id || existing.node_id != request.node_id
        || !existing.claim_device_bound {
        Some(ApiError::forbidden("任务租约不属于当前节点"))
    } else if !text::holds(existing.error_class, request.error_class.key()) || !text::holds(
        existing.error_message,
        request.error_message@,
    ) || existing.retryable_requested != Some(request.retryable) {
        Some(
            ApiError::conflict(
                "idempotency_binding_mismatch",
                "失败报告幂等键已绑定到不同节点或失败内容",
            ),
        )
    } else {
        None
    }
}

/// Checks that a report repeats, in every part, the one that its key was used for.
pub fn check_repeated_failure(
    request: &JobFailRequest,
    worker_user_id: Uuid,
    existing: &ReportedFailure,
) -> (checked: Result<(), ApiError>)
    ensures
        checked == error::unless(
            repeated_failure_refusal(*request, worker_user_id, *existing),
            (),
        ),
{
    if existing.node_user_id != worker_user_id || existing.node_id != request.node_id
        || !existing.claim_device_bound {
        return Err(ApiError::forbidden("任务租约不属于当前节点"));
    }
    let same_retryable = match existing.retryable_requested {
        Some(retryable) => retryable == request.retryable,
        None => false,
    };
    if !text::option_holds(&existing.error_class, job_error_class_key(request.error_class))
        || !text::option_holds(&existing.error_message, request.error_message.as_str())
        || !same_retryable {
        return Err(
            ApiError::conflict(
                "idempotency_binding_mismatch",
                "失败报告幂等键已绑定到不同节点或失败内容",
            ),
        );
    }
    Ok(())
}

/// What the database holds of a job whose attempt failed.
pub struct FailingJob {
    pub node_user_id: Uuid,
    pub leased_to_node_id: Uuid,
    pub claim_device_bound: bool,
    pub status: String,
    pub lease_is_valid: bool,
    pub attempt_count: i32,
    pub max_attempts: i32,
    pub reserved_cost_micro: i64,
    pub account_reserved_micro: i64,
}

/// What a failed attempt leads to.
#[derive(Clone, Copy, Debug, PartialEq, Eq, Structural)]
pub enum FailureStep {
    /// The job waits, and is tried again from then on.
    Retry { available_at: i128 },
    /// The job ends, and its whole reservation goes back to the consumer.
    Fail { account_reserved_after_micro: i64 },
}

/// The seconds that a job waits after an attempt: twice the number of attempts, at
/// least one second and at most a minute.
pub open spec fn backoff_seconds(attempt_count: int) -> int {
    if attempt_count * 2 < 1 {
        1
    } else if attempt_count * 2 > 60 {
        60
    } else {
        attempt_count * 2
    }
}

pub open spec fn failure_step(
    request: JobFailRequest,
    worker_user_id: Uuid,
    job: FailingJob,
    now: i128,
) -> Result<FailureStep, ApiError> {
    if job.node_user_id != worker_user_id || job.leased_to_node_id != request.node_id
        || !job.claim_device_bound {
        Err(ApiError::forbidden("任务租约不属于当前节点"))
    } else if job.status@ != "leased"@ {
        Err(ApiError::conflict("job_not_leased", "任务当前不接受失败报告"))
    } else if !job.lease_is_valid {
        Err(ApiError::conflict("lease_expired", "任务租约已经过期"))
    } else if request.retryable && job.attempt_count < job.max_attempts {
        match clock::moment_after(now, backoff_seconds(job.attempt_count as int)) {
            Ok(available_at) => Ok(FailureStep::Retry { available_at }),
            Err(refused) => Err(refused),
        }
    } else {
        match settlement::released_reservation(
            job.account_reserved_micro as int,
            job.reserved_cost_micro as int,
        ) {
            Ok(account_reserved_after_micro) => Ok(
                FailureStep::Fail { account_reserved_after_micro },
            ),
            Err(refused) => Err(refused),
        }
    }
}

/// Decides what a reported failure leads to: another attempt after a while, where
/// the report allows one and one is left, or the end of the job.
pub fn plan_failure(
    request: &JobFailRequest,
    worker_user_id: Uuid,
    job: &FailingJob,
    now: i128,
) -> (step: Result<FailureStep, ApiError>)
    requires
        clock::is_moment(now),
    ensures
        step == failure_step(*request, worker_user_id, *job, now),
{
    if job.node_user_id != worker_user_id || job.leased_to_node_id != request.node_id
        || !job.claim_device_bound {
        return Err(ApiError::forbidden("任务租约不属于当前节点"));
    }
    if !text::same_text(job.status.as_str(), "leased") {
        return Err(ApiError::conflict("job_not_leased", "任务当前不接受失败报告"));
    }
    if !job.lease_is_valid {
        return Err(ApiError::conflict("lease_expired", "任务租约已经过期"));
    }
    if request.retryable && job.attempt_count < job.max_attempts {
        let doubled: i64 = job.attempt_count as i64 * 2;
        let seconds: u64 = if doubled < 1 {
            1
        } else if doubled > 60 {
            60
        } else {
            doubled as u64
        };
        let available_at = clock::expiry(now, seconds)?;
        Ok(FailureStep::Retry { available_at })
    } else {
        let account_reserved_after_micro = release_reservation(
            job.account_reserved_micro,
            job.reserved_cost_micro,
        )?;
        Ok(FailureStep::Fail { account_reserved_after_micro })
    }
}

/// A job never gets more attempts than it was allowed: one that has used them all
/// ends, whatever the report says.
pub proof fn exhausted_jobs_are_not_retried(
    request: JobFailRequest,
    worker_user_id: Uuid,
    job: FailingJob,
    now: i128,
)
    requires
        job.attempt_count >= job.max_attempts,
    ensures
        !(failure_step(request, worker_user_id, job, now) matches Ok(
            FailureStep::Retry { available_at },
        )),
{
}

/// A retry waits between one second and a minute.
pub proof fn retries_wait_a_bounded_while(
    request: JobFailRequest,
    worker_user_id: Uuid,
    job: FailingJob,
    now: i128,
)
    ensures
        failure_step(request, worker_user_id, job, now) matches Ok(
            FailureStep::Retry { available_at },
        ) ==> now + clock::NANOS_PER_SECOND <= available_at <= now + 60 * clock::NANOS_PER_SECOND,
{
}

/// Token counts that a response reports.
#[derive(Clone, Copy, Debug, PartialEq, Eq, Structural)]
pub struct Usage {
    pub prompt_tokens: u64,
    pub completion_tokens: u64,
    pub total_tokens: u64,
}

pub open spec fn reported_usage_refusal(usage: Usage, input: int, output: int) -> Option<ApiError> {
    if usage.prompt_tokens + usage.completion_tokens > u64::MAX {
        Some(ApiError::bad_request("invalid_job_result", "usage Token 总数溢出"))
    } else if usage.prompt_tokens > i32::MAX {
        Some(ApiError::bad_request("invalid_job_result", "prompt_tokens 超出范围"))
    } else if usage.completion_tokens > i32::MAX {
        Some(ApiError::bad_request("invalid_job_result", "completion_tokens 超出范围"))
    } else if usage.total_tokens != usage.prompt_tokens + usage.completion_tokens
        || usage.prompt_tokens != input || usage.completion_tokens != output {
        Some(
            ApiError::bad_request(
                "usage_binding_mismatch",
                "结果 usage 与节点上报的实际 Token 不一致",
            ),
        )
    } else {
        None
    }
}

/// Checks that the usage in a result adds up and is the usage that the node reports.
pub fn validate_reported_usage(usage: Usage, actual_input_tokens: i32, actual_output_tokens: i32) -> (valid: Result<
    (),
    ApiError,
>)
    ensures
        valid == error::unless(
            reported_usage_refusal(
                usage,
                actual_input_tokens as int,
                actual_output_tokens as int,
            ),
            (),
        ),
{
    let expected_total: u64 = match usage.prompt_tokens.checked_add(usage.completion_tokens) {
        Some(sum) => sum,
        None => {
            return Err(ApiError::bad_request("invalid_job_result", "usage Token 总数溢出"));
        },
    };
    if usage.prompt_tokens > i32::MAX as u64 {
        return Err(ApiError::bad_request("invalid_job_result", "prompt_tokens 超出范围"));
    }
    if usage.completion_tokens > i32::MAX as u64 {
        return Err(ApiError::bad_request("invalid_job_result", "completion_tokens 超出范围"));
    }
    if usage.total_tokens != expected_total || actual_input_tokens as i64
        != usage.prompt_tokens as i64 || actual_output_tokens as i64
        != usage.completion_tokens as i64 {
        return Err(
            ApiError::bad_request(
                "usage_binding_mismatch",
                "结果 usage 与节点上报的实际 Token 不一致",
            ),
        );
    }
    Ok(())
}

/// The bytes of a Standard result, or why it is refused.
pub open spec fn decoded_result(result: Seq<char>) -> Result<Seq<u8>, ApiError> {
    match crypto::base64_bytes(result) {
        None => Err(ApiError::bad_request("invalid_job_result", "任务结果 Base64 无效")),
        Some(bytes) => if bytes.len() > MAX_PAYLOAD_BYTES {
            Err(ApiError::bad_request("invalid_job_result", "任务结果超过允许大小"))
        } else {
            Ok(bytes)
        },
    }
}

/// Decodes a Standard result of bounded size.
pub fn decode_result(result: &str) -> (decoded: Result<Vec<u8>, ApiError>)
    ensures
        match decoded {
            Ok(bytes) => decoded_result(result@) == Ok::<Seq<u8>, ApiError>(bytes@),
            Err(refused) => decoded_result(result@) == Err::<Seq<u8>, ApiError>(refused),
        },
{
    match crypto::base64_decode(result) {
        None => Err(ApiError::bad_request("invalid_job_result", "任务结果 Base64 无效")),
        Some(bytes) => if bytes.len() > MAX_PAYLOAD_BYTES {
            Err(ApiError::bad_request("invalid_job_result", "任务结果超过允许大小"))
        } else {
            Ok(bytes)
        },
    }
}

/// A response of an inference endpoint, as far as it is checked. `first_text` is the
/// text of the first choice, where that is a plain text.
pub struct InferenceResponse {
    pub choices: usize,
    pub model: String,
    pub first_text: Option<String>,
    pub usage: Usage,
}

pub open spec fn response_refusal(
    endpoint: Endpoint,
    response: Option<InferenceResponse>,
    model: Seq<char>,
    input: int,
    output: int,
) -> Option<ApiError> {
    match endpoint {
        Endpoint::Other => Some(ApiError::internal()),
        Endpoint::ChatCompletions => match response {
            None => Some(
                ApiError::bad_request("invalid_job_result", "聊天任务结果不符合 OpenAI 响应协议"),
            ),
            Some(response) => if response.choices == 0 {
                Some(ApiError::bad_request("invalid_job_result", "聊天任务结果缺少 choices"))
            } else if response.model@ != model {
                Some(
                    ApiError::bad_request(
                        "model_binding_mismatch",
                        "聊天任务结果模型与任务载荷不一致",
                    ),
                )
            } else if !(response.first_text matches Some(text) && text::trimmed(text@).len() > 0) {
                Some(ApiError::bad_request("invalid_job_result", "聊天任务结果必须包含非空文本"))
            } else {
                reported_usage_refusal(response.usage, input, output)
            },
        },
        Endpoint::Completions => match response {
            None => Some(
                ApiError::bad_request("invalid_job_result", "补全任务结果不符合 OpenAI 响应协议"),
            ),
            Some(response) => if response.choices == 0 {
                Some(ApiError::bad_request("invalid_job_result", "补全任务结果缺少 choices"))
            } else if response.model@ != model {
                Some(
                    ApiError::bad_request(
                        "model_binding_mismatch",
                        "补全任务结果模型与任务载荷不一致",
                    ),
                )
            } else {
                reported_usage_refusal(response.usage, input, output)
            },
        },
    }
}

/// Checks the response that a Standard job ends in: from the model that was asked
/// for, with at least one choice (for a chat, of some text), and with the usage that
/// the node reports. `None` stands for bytes that are no response.
pub fn validate_standard_result(
    endpoint: Endpoint,
    response: &Option<InferenceResponse>,
    authorized_model: &str,
    actual_input_tokens: i32,
    actual_output_tokens: i32,
) -> (valid: Result<(), ApiError>)
    ensures
        valid == error::unless(
            response_refusal(
                endpoint,
                *response,
                authorized_model@,
                actual_input_tokens as int,
                actual_output_tokens as int,
            ),
            (),
        ),
{
    match endpoint {
        Endpoint::Other => Err(ApiError::internal()),
        Endpoint::ChatCompletions => match response {
            None => Err(
                ApiError::bad_request("invalid_job_result", "聊天任务结果不符合 OpenAI 响应协议"),
            ),
            Some(response) => {
                if response.choices == 0 {
                    return Err(
                        ApiError::bad_request("invalid_job_result", "聊天任务结果缺少 choices"),
                    );
                }
                if !text::same_text(response.model.as_str(), authorized_model) {
                    return Err(
                        ApiError::bad_request(
                            "model_binding_mismatch",
                            "聊天任务结果模型与任务载荷不一致",
                        ),
                    );
                }
                let has_text = match &response.first_text {
                    Some(text) => !text::trim(text.as_str()).is_empty(),
                    None => false,
                };
                if !has_text {
                    return Err(
                        ApiError::bad_request("invalid_job_result", "聊天任务结果必须包含非空文本"),
                    );
                }
                validate_reported_usage(response.usage, actual_input_tokens, actual_output_tokens)
            },
        },
        Endpoint::Completions => match response {
            None => Err(
                ApiError::bad_request("invalid_job_result", "补全任务结果不符合 OpenAI 响应协议"),
            ),
            Some(response) => {
                if response.choices == 0 {
                    return Err(
                        ApiError::bad_request("invalid_job_result", "补全任务结果缺少 choices"),
                    );
                }
                if !text::same_text(response.model.as_str(), authorized_model) {
                    return Err(
                        ApiError::bad_request(
                            "model_binding_mismatch",
                            "补全任务结果模型与任务载荷不一致",
                        ),
                    );
                }
                validate_reported_usage(response.usage, actual_input_tokens, actual_output_tokens)
            },
        },
    }
}

/// Checks what a result needs besides its content: for a streaming Standard job a
/// complete stream. A Regulated result is checked when it is settled.
pub fn validate_job_result(
    confidentiality: &str,
    stream: bool,
    max_attempts: i32,
    transcript: StreamTranscript,
) -> (valid: Result<(), ApiError>)
    ensures
        valid == if confidentiality@ == "standard"@ {
            if stream && max_attempts != 1 {
                Err::<(), ApiError>(ApiError::internal())
            } else if stream && !transcript.complete() {
                Err::<(), ApiError>(
                    ApiError::conflict(
                        "stream_incomplete",
                        "SSE 结果只有在连续事件和 upstream_done 已持久确认后才能结算",
                    ),
                )
            } else {
                Ok::<(), ApiError>(())
            }
        } else if confidentiality@ == "regulated"@ {
            Ok::<(), ApiError>(())
        } else {
            Err::<(), ApiError>(ApiError::internal())
        },
{
    if text::same_text(confidentiality, "standard") {
        if stream {
            if max_attempts != 1 {
                return Err(ApiError::internal());
            }
            check_transcript(transcript)?;
        }
        return Ok(());
    }
    if text::same_text(confidentiality, "regulated") {
        return Ok(());
    }
    Err(ApiError::internal())
}

#[verifier::allow_in_spec]
pub fn billing_profile_unavailable() -> ApiError
    returns
        ApiError::unavailable(
            "billing_profile_unavailable",
            "当前模型没有有效且覆盖本次 Token 授权上界的物理计费 profile",
        ),
{
    ApiError::unavailable(
        "billing_profile_unavailable",
        "当前模型没有有效且覆盖本次 Token 授权上界的物理计费 profile",
    )
}

/// The billing profile that a new job is priced with, and what it comes to: the
/// quote, and the amount to reserve.
pub struct BillingSnapshot {
    pub contract_version: String,
    pub model_weights_hash: String,
    pub authorized_input_tokens: i64,
    pub authorized_max_output_tokens: i64,
    pub quote: BillingQuote,
    pub reservation_micro: i64,
}

/// A profile prices a job if it is of the present contract and for the weights of
/// the model, and if the contract can quote and reserve for it.
pub open spec fn profile_prices(
    contract_version: Seq<char>,
    profile_weights_hash: Seq<char>,
    model_weights_hash: Seq<char>,
    quote: Option<BillingQuote>,
    reservation_micro: Option<i64>,
) -> bool {
    &&& contract_version == SERVER_REFERENCE_UPPER_BOUND_V1@
    &&& profile_weights_hash == model_weights_hash
    &&& quote is Some
    &&& reservation_micro is Some
}

impl BillingSnapshot {
    /// Prices a job. `quote` and `reservation_micro` are what the contract makes of
    /// the profile and the token limits, or `None` where it rejects them.
    pub fn calculate(
        contract_version: String,
        profile_weights_hash: String,
        model_weights_hash: &str,
        authorized_input_tokens: i64,
        authorized_max_output_tokens: i64,
        quote: Option<BillingQuote>,
        reservation_micro: Option<i64>,
    ) -> (priced: Result<BillingSnapshot, ApiError>)
        ensures
            priced is Ok <==> profile_prices(
                contract_version@,
                profile_weights_hash@,
                model_weights_hash@,
                quote,
                reservation_micro,
            ),
            priced matches Err(refused) ==> refused == billing_profile_unavailable(),
            priced matches Ok(snapshot) ==> snapshot == (BillingSnapshot {
                contract_version,
                model_weights_hash: profile_weights_hash,
                authorized_input_tokens,
                authorized_max_output_tokens,
                quote: quote->0,
                reservation_micro: reservation_micro->0,
            }),
    {
        if !text::same_text(contract_version.as_str(), SERVER_REFERENCE_UPPER_BOUND_V1)
            || !text::same_text(profile_weights_hash.as_str(), model_weights_hash) {
            return Err(billing_profile_unavailable());
        }
        match (quote, reservation_micro) {
            (Some(quote), Some(reservation_micro)) => Ok(
                BillingSnapshot {
                    contract_version,
                    model_weights_hash: profile_weights_hash,
                    authorized_input_tokens,
                    authorized_max_output_tokens,
                    quote,
                    reservation_micro,
                },
            ),
            _ => Err(billing_profile_unavailable()),
        }
    }

    /// Reads what a prepared route froze, and checks it against what the contract
    /// makes of the frozen profile.
    pub fn from_frozen_row(
        row: JobBillingSnapshot,
        expected_model_weights_hash: &str,
        quote: Option<BillingQuote>,
        reservation_micro: Option<i64>,
    ) -> (read: Result<BillingSnapshot, ApiError>)
        ensures
            read is Ok <==> profile_prices(
                row.contract_version@,
                row.model_weights_hash@,
                expected_model_weights_hash@,
                quote,
                reservation_micro,
            ) && quote == Some(row.quote()),
            read matches Err(refused) ==> refused == billing_profile_unavailable(),
            read matches Ok(snapshot) ==> snapshot == (BillingSnapshot {
                contract_version: row.contract_version,
                model_weights_hash: row.model_weights_hash,
                authorized_input_tokens: row.authorized_input_tokens,
                authorized_max_output_tokens: row.authorized_max_output_tokens,
                quote: quote->0,
                reservation_micro: reservation_micro->0,
            }),
    {
        if row.validate_frozen_quote(&quote).is_err() {
            return Err(billing_profile_unavailable());
        }
        BillingSnapshot::calculate(
            row.contract_version,
            row.model_weights_hash,
            expected_model_weights_hash,
            row.authorized_input_tokens,
            row.authorized_max_output_tokens,
            quote,
            reservation_micro,
        )
    }
}

/// The context that a job needs: all its tokens, or the most there can be.
pub fn required_context(input_tokens: i32, output_tokens: i32) -> (context: i32)
    ensures
        context == if input_tokens + output_tokens > i32::MAX {
            i32::MAX as int
        } else if input_tokens + output_tokens < i32::MIN {
            i32::MIN as int
        } else {
            input_tokens + output_tokens
        },
{
    let exact: i64 = input_tokens as i64 + output_tokens as i64;
    if exact > i32::MAX as i64 {
        i32::MAX
    } else if exact < i32::MIN as i64 {
        i32::MIN
    } else {
        exact as i32
    }
}

/// What goes wrong when a job is assessed for abuse.
#[derive(Clone, Copy, Debug, PartialEq, Eq, Structural)]
pub enum AntiAbuseError {
    IdempotencyConflict,
    MissingDeviceBinding,
    Database,
    InvalidInput,
}

pub open spec fn anti_abuse_refusal(failure: AntiAbuseError) -> ApiError {
    match failure {
        AntiAbuseError::IdempotencyConflict => ApiError::conflict(
            "idempotency_binding_mismatch",
            "任务幂等键的网络完整性绑定不一致",
        ),
        AntiAbuseError::MissingDeviceBinding => ApiError::anti_abuse_blocked(),
        AntiAbuseError::Database => ApiError::internal(),
        AntiAbuseError::InvalidInput => ApiError::internal(),
    }
}

pub fn map_anti_abuse_error(failure: AntiAbuseError) -> (refused: ApiError)
    ensures
        refused == anti_abuse_refusal(failure),
{
    match failure {
        AntiAbuseError::IdempotencyConflict => ApiError::conflict(
            "idempotency_binding_mismatch",
            "任务幂等键的网络完整性绑定不一致",
        ),
        AntiAbuseError::MissingDeviceBinding => ApiError::anti_abuse_blocked(),
        AntiAbuseError::Database => ApiError::internal(),
        AntiAbuseError::InvalidInput => ApiError::internal(),
    }
}

/// Turns the assessment of a new job into an answer: only an assessment that allows
/// the job lets it be created.
pub fn assess_job_creation(assessment: Result<bool, AntiAbuseError>) -> (assessed: Result<
    (),
    ApiError,
>)
    ensures
        assessed == match assessment {
            Ok(true) => Ok::<(), ApiError>(()),
            Ok(false) => Err::<(), ApiError>(ApiError::anti_abuse_blocked()),
            Err(failure) => Err::<(), ApiError>(anti_abuse_refusal(failure)),
        },
{
    match assessment {
        Ok(allowed) => if allowed {
            Ok(())
        } else {
            Err(ApiError::anti_abuse_blocked())
        },
        Err(failure) => Err(map_anti_abuse_error(failure)),
    }
}

/// A job that ends because its lease can no longer be kept.
pub struct ReapedJob {
    pub regulated_node_id: Option<Uuid>,
    pub attempt_count: i32,
    pub reserved_cost_micro: i64,
    pub account_reserved_micro: i64,
}

/// Ends a job whose last lease ran out: its whole reservation goes back.
pub fn reap_expired_terminal_lease(job: &ReapedJob) -> (left: Result<i64, ApiError>)
    ensures
        left == settlement::released_reservation(
            job.account_reserved_micro as int,
            job.reserved_cost_micro as int,
        ),
{
    release_reservation(job.account_reserved_micro, job.reserved_cost_micro)
}

/// Ends a Regulated job whose node or report is no longer valid: it moves neither to
/// another node nor to Standard. The result is the node of the failed attempt that is
/// put on record, its number, and what is left of the reservations of the account.
pub fn reap_invalid_regulated_job(job: &ReapedJob) -> (ended: Result<(Uuid, i32, i64), ApiError>)
    ensures
        ended == match (
            job.regulated_node_id,
            settlement::released_reservation(
                job.account_reserved_micro as int,
                job.reserved_cost_micro as int,
            ),
        ) {
            (Some(node_id), Ok(left)) => Ok::<(Uuid, i32, i64), ApiError>(
                (
                    node_id,
                    if job.attempt_count == i32::MAX {
                        i32::MAX
                    } else {
                        (job.attempt_count + 1) as i32
                    },
                    left,
                ),
            ),
            _ => Err::<(Uuid, i32, i64), ApiError>(ApiError::internal()),
        },
{
    match job.regulated_node_id {
        Some(node_id) => {
            let left = release_reservation(job.account_reserved_micro, job.reserved_cost_micro)?;
            Ok((node_id, next_attempt(job.attempt_count), left))
        },
        None => Err(ApiError::internal()),
    }
}

/// What becomes of a failure report.
#[derive(Clone, Copy, Debug, PartialEq, Eq, Structural)]
pub enum FailureAnswer {
    /// The very same report was taken before.
    Replay,
    /// The report is new.
    New(FailureStep),
}

pub open spec fn failure_answer(
    request: JobFailRequest,
    worker_user_id: Uuid,
    existing: Option<ReportedFailure>,
    job: Option<FailingJob>,
    now: i128,
) -> Result<FailureAnswer, ApiError> {
    match (existing, job) {
        (Some(existing), _) => error::unless(
            repeated_failure_refusal(request, worker_user_id, existing),
            FailureAnswer::Replay,
        ),
        (None, None) => Err(ApiError::not_found("任务")),
        (None, Some(job)) => match failure_step(request, worker_user_id, job, now) {
            Ok(step) => Ok(FailureAnswer::New(step)),
            Err(refused) => Err(refused),
        },
    }
}

/// Takes a failure report. `existing` is the report that its key was used for before,
/// and `job` what the database holds of the job.
pub fn job_fail(
    request: &JobFailRequest,
    worker_user_id: Uuid,
    existing: &Option<ReportedFailure>,
    job: &Option<FailingJob>,
    now: i128,
) -> (answer: Result<FailureAnswer, ApiError>)
    requires
        clock::is_moment(now),
    ensures
        answer == failure_answer(*request, worker_user_id, *existing, *job, now),
{
    if let Some(existing) = existing {
        check_repeated_failure(request, worker_user_id, existing)?;
        return Ok(FailureAnswer::Replay);
    }
    match job {
        None => Err(ApiError::not_found("任务")),
        Some(job) => {
            let step = plan_failure(request, worker_user_id, job, now)?;
            Ok(FailureAnswer::New(step))
        },
    }
}

/// A job that waits, and that a node is selected for.
pub struct CandidateJob {
    pub job_id: Uuid,
    pub model_instance_id: Uuid,
    pub model_name: String,
    pub weights_hash: String,
    pub encrypted_payload: String,
    pub payload_encoding: String,
    pub standard_payload_storage_version: Option<i16>,
    pub tags: Vec<String>,
    pub estimated_input_tokens: i32,
    pub max_output_tokens: i32,
    pub attempt_count: i32,
    pub confidentiality: String,
    pub regulated_route_id: Option<Uuid>,
    pub attestation_report_id: Option<Uuid>,
    pub attestation_provider: Option<String>,
    pub tee_public_key: Option<String>,
}

/// The payload that a node gets: what was stored, in the clear for a Standard job.
pub open spec fn claimed_payload(key: Seq<u8>, candidate: CandidateJob) -> Option<Seq<char>> {
    if candidate.confidentiality@ == "standard"@ {
        stored_text(
            key,
            candidate.job_id,
            StorageDirection::Payload,
            candidate.standard_payload_storage_version,
            candidate.encrypted_payload@,
        )
    } else {
        Some(candidate.encrypted_payload@)
    }
}

/// Everything that the database holds of a candidate can be read.
pub open spec fn is_readable(key: Seq<u8>, candidate: CandidateJob) -> bool {
    &&& claimed_payload(key, candidate) is Some
    &&& exists|encoding: PayloadEncoding| #[trigger]
        encoding.name() == candidate.payload_encoding@
    &&& exists|mode: ConfidentialityMode| #[trigger] mode.name() == candidate.confidentiality@
    &&& candidate.attestation_provider matches Some(provider) ==> regulated::names_provider(
        provider@,
    )
}

/// What a node gets for a candidate.
pub open spec fn answers_claim(
    response: ClaimJobResponse,
    key: Seq<u8>,
    candidate: CandidateJob,
    lease_expires_at: i128,
) -> bool {
    &&& response.job_id == candidate.job_id
    &&& response.model_instance_id == candidate.model_instance_id
    &&& response.model@ == candidate.model_name@
    &&& response.model_weights_hash@ == candidate.weights_hash@
    &&& claimed_payload(key, candidate) == Some(response.encrypted_payload@)
    &&& response.payload_encoding.name() == candidate.payload_encoding@
    &&& response.tags == candidate.tags
    &&& response.estimated_input_tokens == candidate.estimated_input_tokens
    &&& response.max_output_tokens == candidate.max_output_tokens
    &&& response.attempt == if candidate.attempt_count == i32::MAX {
        i32::MAX as int
    } else {
        candidate.attempt_count + 1
    }
    &&& response.lease_expires_at == lease_expires_at
    &&& response.policy_check_required_before_execution
    &&& response.confidentiality.name() == candidate.confidentiality@
    &&& response.regulated_route_id == candidate.regulated_route_id
    &&& response.attestation_report_id == candidate.attestation_report_id
    &&& match candidate.attestation_provider {
        Some(provider) => response.attestation_provider matches Some(named) && named.name()
            == provider@,
        None => response.attestation_provider is None,
    }
    &&& response.tee_public_key == candidate.tee_public_key
}

/// Leases a candidate to the node that it was selected for. There is no work for the node
/// where the instance has been quarantined or is no longer published.
pub fn claim_job(
    key: &[u8; 32],
    candidate: CandidateJob,
    quarantined: bool,
    instance_status: &Option<String>,
    lease_seconds: u64,
    now: i128,
) -> (claimed: Result<Option<ClaimJobResponse>, ApiError>)
    requires
        clock::is_moment(now),
    ensures
        match clock::moment_after(now, lease_seconds as int) {
            Err(refused) => claimed == Err::<Option<ClaimJobResponse>, ApiError>(refused),
            Ok(lease_expires_at) => if quarantined || !text::holds(
                *instance_status,
                "published"@,
            ) {
                claimed == Ok::<Option<ClaimJobResponse>, ApiError>(None)
            } else if is_readable(key@, candidate) {
                claimed matches Ok(Some(response)) && answers_claim(
                    response,
                    key@,
                    candidate,
                    lease_expires_at,
                )
            } else {
                claimed == Err::<Option<ClaimJobResponse>, ApiError>(ApiError::internal())
            },
        },
{
    let attempt = next_attempt(candidate.attempt_count);
    let lease_expires_at = clock::expiry(now, lease_seconds)?;
    if !instance_can_be_leased(quarantined, instance_status) {
        return Ok(None);
    }
    let encrypted_payload = leased_payload(
        key,
        candidate.job_id,
        candidate.confidentiality.as_str(),
        candidate.standard_payload_storage_version,
        candidate.encrypted_payload,
    )?;
    let payload_encoding = payload_encoding_from_db(candidate.payload_encoding.as_str())?;
    let confidentiality = confidentiality_from_db(candidate.confidentiality.as_str())?;
    let attestation_provider = match &candidate.attestation_provider {
        Some(provider) => {
            let named = attestation_provider_from_db(provider.as_str())?;
            Some(named)
        },
        None => None,
    };
    Ok(
        Some(
            ClaimJobResponse {
                job_id: candidate.job_id,
                model_instance_id: candidate.model_instance_id,
                model: candidate.model_name,
                model_weights_hash: candidate.weights_hash,
                encrypted_payload,
                payload_encoding,
                tags: candidate.tags,
                estimated_input_tokens: candidate.estimated_input_tokens,
                max_output_tokens: candidate.max_output_tokens,
                attempt,
                lease_expires_at,
                policy_check_required_before_execution: true,
                confidentiality,
                regulated_route_id: candidate.regulated_route_id,
                attestation_report_id: candidate.attestation_report_id,
                attestation_provider,
                tee_public_key: candidate.tee_public_key,
            },
        ),
    )
}

/// A Standard job that is about to be queued.
pub struct PlacedJob {
    pub reserved_after_micro: i64,
    pub stored_payload: String,
    pub max_attempts: i32,
}

/// Queues a Standard job: its cost is reserved and its payload is put under seal. The
/// payload opens to what the request holds; one that cannot be stored is an internal
/// error. Sealing draws on chance, and is an internal error where there is none.
pub fn place_standard_job(
    key: &[u8; 32],
    job_id: Uuid,
    request: &CreateJobRequest,
    stream: bool,
    reservation_micro: i64,
    spendable_micro: i64,
    reserved_micro: i64,
    max_job_retries: i32,
) -> (placed: Result<PlacedJob, ApiError>)
    ensures
        match placed {
            Ok(placed) => {
                &&& reserved_after(
                    spendable_micro as int,
                    reserved_micro as int,
                    reservation_micro as int,
                ) == Ok::<i64, ApiError>(placed.reserved_after_micro)
                &&& standard_data::storable(vstd::utf8::encode_utf8(request.encrypted_payload@))
                &&& stored_text(
                    key@,
                    job_id,
                    StorageDirection::Payload,
                    Some(STORAGE_VERSION),
                    placed.stored_payload@,
                ) == Some(request.encrypted_payload@)
                &&& placed.max_attempts == attempts(stream, max_job_retries)
            },
            Err(refused) => match reserved_after(
                spendable_micro as int,
                reserved_micro as int,
                reservation_micro as int,
            ) {
                Err(uncovered) => refused == uncovered,
                Ok(_) => refused == ApiError::internal(),
            },
        },
{
    let reserved_after_micro = reserve_quota(spendable_micro, reserved_micro, reservation_micro)?;
    match standard_data::encrypt_for_storage(
        key,
        job_id,
        StorageDirection::Payload,
        request.encrypted_payload.as_str().as_bytes(),
    ) {
        Ok(stored_payload) => {
            proof {
                vstd::utf8::encode_utf8_valid_utf8(request.encrypted_payload@);
                vstd::utf8::encode_utf8_decode_utf8(request.encrypted_payload@);
            }
            Ok(
                PlacedJob {
                    reserved_after_micro,
                    stored_payload,
                    max_attempts: attempts_allowed(stream, max_job_retries),
                },
            )
        },
        Err(_) => Err(ApiError::internal()),
    }
}

/// A node that claims a Standard job reads the payload that the job was created with.
pub proof fn nodes_read_what_was_created(
    key: Seq<u8>,
    candidate: CandidateJob,
    payload: Seq<char>,
    response: ClaimJobResponse,
    lease_expires_at: i128,
)
    requires
        candidate.confidentiality@ == "standard"@,
        stored_text(
            key,
            candidate.job_id,
            StorageDirection::Payload,
            candidate.standard_payload_storage_version,
            candidate.encrypted_payload@,
        ) == Some(payload),
        answers_claim(response, key, candidate, lease_expires_at),
    ensures
        response.encrypted_payload@ == payload,
{
}

/// What a valid request meets on its way to a new job, in the order in which it does: a
/// job under the same key, the assessment of the account, what is wrong with the speed that
/// the model name asks for, the model that was selected, the billing of that model where a
/// profile prices it, and the account.
pub struct CreationFacts {
    pub existing: Option<Option<String>>,
    pub assessment: Result<bool, AntiAbuseError>,
    pub speed_problem: Option<String>,
    pub selected: Result<SelectedModel, ApiError>,
    pub billing: Option<BillingSnapshot>,
    pub spendable_micro: i64,
    pub reserved_micro: i64,
}

/// Why no job is created or replayed, if none is.
pub open spec fn creation_refusal(request_fingerprint: Seq<char>, facts: CreationFacts) -> Option<
    ApiError,
> {
    match facts.existing {
        Some(stored) => if text::holds(stored, request_fingerprint) {
            None
        } else {
            Some(
                ApiError::conflict(
                    "idempotency_binding_mismatch",
                    "Standard 创建幂等键已绑定到不同请求内容",
                ),
            )
        },
        None => match facts.assessment {
            Err(failure) => Some(anti_abuse_refusal(failure)),
            Ok(false) => Some(ApiError::anti_abuse_blocked()),
            Ok(true) => match (facts.speed_problem, facts.selected, facts.billing) {
                (Some(detail), _, _) => Some(
                    ApiError::BadRequestReason { code: "invalid_job", detail },
                ),
                (None, Err(refused), _) => Some(refused),
                (None, Ok(_), None) => Some(billing_profile_unavailable()),
                (None, Ok(_), Some(billing)) => error::refusal(
                    reserved_after(
                        facts.spendable_micro as int,
                        facts.reserved_micro as int,
                        billing.reservation_micro as int,
                    ),
                ),
            },
        },
    }
}

/// A job that was asked for.
pub enum CreatedJob {
    /// The job was created before, for the same request.
    Replay,
    /// The job is new.
    Queued { model_id: Uuid, reservation_micro: i64, placed: PlacedJob },
}

/// A job is placed as it was asked for, on the model and at the cost that were found.
pub open spec fn is_queued(
    created: CreatedJob,
    key: Seq<u8>,
    job_id: Uuid,
    request: CreateJobRequest,
    stream: bool,
    max_job_retries: i32,
    facts: CreationFacts,
) -> bool {
    created matches CreatedJob::Queued { model_id, reservation_micro, placed } && {
        &&& facts.selected matches Ok(model) && model_id == model.id
        &&& facts.billing matches Some(billing) && reservation_micro == billing.reservation_micro
        &&& reserved_after(
            facts.spendable_micro as int,
            facts.reserved_micro as int,
            reservation_micro as int,
        ) == Ok::<i64, ApiError>(placed.reserved_after_micro)
        &&& standard_data::storable(vstd::utf8::encode_utf8(request.encrypted_payload@))
        &&& stored_text(
            key,
            job_id,
            StorageDirection::Payload,
            Some(STORAGE_VERSION),
            placed.stored_payload@,
        ) == Some(request.encrypted_payload@)
        &&& placed.max_attempts == attempts(stream, max_job_retries)
    }
}

/// Creates a Standard job, once for each key. Sealing the payload draws on chance, and is
/// an internal error where there is none.
pub fn create_job_authenticated(
    key: &[u8; 32],
    job_id: Uuid,
    request: &CreateJobRequest,
    validated: &ValidatedStandardJob,
    facts: CreationFacts,
    max_job_retries: i32,
) -> (created: Result<CreatedJob, ApiError>)
    ensures
        match creation_refusal(validated.request_fingerprint@, facts) {
            Some(refused) => created == Err::<CreatedJob, ApiError>(refused),
            None => if facts.existing is Some {
                created == Ok::<CreatedJob, ApiError>(CreatedJob::Replay)
            } else {
                match created {
                    Ok(created) => is_queued(
                        created,
                        key@,
                        job_id,
                        *request,
                        validated.stream,
                        max_job_retries,
                        facts,
                    ),
                    Err(refused) => refused == ApiError::internal(),
                }
            },
        },
{
    if let Some(stored) = &facts.existing {
        check_existing_job(stored, validated.request_fingerprint.as_str())?;
        return Ok(CreatedJob::Replay);
    }
    assess_job_creation(facts.assessment)?;
    if let Some(detail) = facts.speed_problem {
        return Err(ApiError::BadRequestReason { code: "invalid_job", detail });
    }
    let model = facts.selected?;
    let billing = match facts.billing {
        Some(billing) => billing,
        None => {
            return Err(billing_profile_unavailable());
        },
    };
    let placed = place_standard_job(
        key,
        job_id,
        request,
        validated.stream,
        billing.reservation_micro,
        facts.spendable_micro,
        facts.reserved_micro,
        max_job_retries,
    )?;
    Ok(
        CreatedJob::Queued {
            model_id: model.id,
            reservation_micro: billing.reservation_micro,
            placed,
        },
    )
}

/// A repeated request is never refused for what changed since: a job under its key with
/// its content answers it, and nothing is reserved again.
pub proof fn repeated_requests_are_replayed(
    request_fingerprint: Seq<char>,
    stored: Option<String>,
    facts: CreationFacts,
)
    requires
        facts.existing == Some(stored),
        text::holds(stored, request_fingerprint),
    ensures
        creation_refusal(request_fingerprint, facts) is None,
{
}

/// What became of a lease that was to be renewed.
#[derive(Clone, Copy, Debug, PartialEq, Eq, Structural)]
pub enum Renewal {
    /// The Regulated lease lost its hardware trust, and the job ended without a charge.
    Terminated,
    Renewed { lease_expires_at: i128 },
}

/// Renews a lease, for a node whose policy still allows the work. `decision` is what the
/// policy says, and `claim_device_bound` whether the device that asks holds the live lease.
pub fn renew_job(
    node_status: &str,
    claim_device_bound: Option<bool>,
    confidentiality: &str,
    regulated_lease_valid: bool,
    decision: Option<PolicyDecision>,
    now: i128,
    lease_seconds: u64,
) -> (renewed: Result<Renewal, ApiError>)
    requires
        clock::is_moment(now),
    ensures
        if node_status@ != "online"@ && node_status@ != "paused"@ && node_status@ != "draining"@ {
            renewed == Err::<Renewal, ApiError>(
                ApiError::policy_rejected("节点策略当前暂停执行"),
            )
        } else if claim_device_bound != Some(true) {
            renewed == Err::<Renewal, ApiError>(lease_not_renewable())
        } else if confidentiality@ == "regulated"@ && !regulated_lease_valid {
            renewed == Ok::<Renewal, ApiError>(Renewal::Terminated)
        } else if decision == Some(PolicyDecision::Accept) {
            renewed == match clock::moment_after(now, lease_seconds as int) {
                Ok(lease_expires_at) => Ok::<Renewal, ApiError>(
                    Renewal::Renewed { lease_expires_at },
                ),
                Err(refused) => Err::<Renewal, ApiError>(refused),
            }
        } else {
            renewed matches Err(refused) && policy::enforces(decision, Err::<(), ApiError>(refused))
        },
{
    check_renewing_node(node_status)?;
    match plan_renewal(claim_device_bound, confidentiality, regulated_lease_valid)? {
        RenewalStep::TerminateLease => Ok(Renewal::Terminated),
        RenewalStep::Renew => {
            policy::enforce_current_policy(decision)?;
            let lease_expires_at = clock::expiry(now, lease_seconds)?;
            Ok(Renewal::Renewed { lease_expires_at })
        },
    }
}

/// The names that the database knows: one for each, and these.
pub proof fn database_names_are_fixed()
    ensures
        PayloadEncoding::Base64.name() == "base64"@,
        PayloadEncoding::Base64Url.name() == "base64url"@,
        PayloadEncoding::RegulatedAeadV1.name() == "regulated_aead_v1"@,
        ConfidentialityMode::Standard.name() == "standard"@,
        ConfidentialityMode::Regulated.name() == "regulated"@,
        JobStatus::Queued.name() == "queued"@,
        JobStatus::Retry.name() == "retry"@,
        JobStatus::Leased.name() == "leased"@,
        JobStatus::Succeeded.name() == "succeeded"@,
        JobStatus::Failed.name() == "failed"@,
        JobStatus::Cancelled.name() == "cancelled"@,
        AttestationProvider::AmdSevSnp.name() == "amd_sev_snp"@,
        AttestationProvider::IntelTdx.name() == "intel_tdx"@,
        JobErrorClass::Engine.key() == "engine"@,
        JobErrorClass::Model.key() == "model"@,
        JobErrorClass::Policy.key() == "policy"@,
        JobErrorClass::Timeout.key() == "timeout"@,
        JobErrorClass::ResourceExhausted.key() == "resource_exhausted"@,
        JobErrorClass::NodeDisconnected.key() == "node_disconnected"@,
        JobErrorClass::InvalidRequest.key() == "invalid_request"@,
        JobErrorClass::Internal.key() == "internal"@,
        JobErrorClass::Attestation.key() == "attestation"@,
        stable_class("lease_expired"@) == JobErrorClass::Timeout,
        forall|value: Seq<char>|
            (forall|class: JobErrorClass| #[trigger] class.key() != value) && value
                != "lease_expired"@ ==> #[trigger] stable_class(value) == JobErrorClass::Internal,
{
    reveal_strlit("engine");
    reveal_strlit("model");
    reveal_strlit("policy");
    reveal_strlit("timeout");
    reveal_strlit("lease_expired");
    reveal_strlit("resource_exhausted");
    reveal_strlit("node_disconnected");
    reveal_strlit("invalid_request");
    reveal_strlit("internal");
    reveal_strlit("attestation");
    assert("engine"@[0] == 'e' && "model"@[0] == 'm' && "policy"@[0] == 'p');
    assert("lease_expired"@[0] == 'l');
    assert forall|value: Seq<char>|
        (forall|class: JobErrorClass| #[trigger] class.key() != value) && value
            != "lease_expired"@ implies #[trigger] stable_class(value)
        == JobErrorClass::Internal by {
        assert(JobErrorClass::Engine.key() != value);
        assert(JobErrorClass::Model.key() != value);
        assert(JobErrorClass::Policy.key() != value);
        assert(JobErrorClass::Timeout.key() != value);
        assert(JobErrorClass::ResourceExhausted.key() != value);
        assert(JobErrorClass::NodeDisconnected.key() != value);
        assert(JobErrorClass::InvalidRequest.key() != value);
        assert(JobErrorClass::Attestation.key() != value);
    }
}

/// A report of the device that holds a live lease is always heeded. While attempts are left
/// and the report allows one, the job is tried again, after two seconds for each attempt so
/// far, at least one second and at most a minute. Otherwise it ends, and its whole
/// reservation goes back.
pub proof fn failures_are_retried_while_attempts_are_left(
    request: JobFailRequest,
    worker_user_id: Uuid,
    job: FailingJob,
    now: i128,
)
    requires
        clock::is_moment(now),
        now + 60_000_000_000 <= clock::MAX_MOMENT,
        job.node_user_id == worker_user_id,
        job.leased_to_node_id == request.node_id,
        job.claim_device_bound,
        job.status@ == "leased"@,
        job.lease_is_valid,
    ensures
        request.retryable && job.attempt_count < job.max_attempts ==> (failure_answer(
            request,
            worker_user_id,
            None,
            Some(job),
            now,
        ) matches Ok(FailureAnswer::New(FailureStep::Retry { available_at })) && {
            &&& job.attempt_count <= 0 ==> available_at == now + 1_000_000_000
            &&& 1 <= job.attempt_count <= 30 ==> available_at == now + job.attempt_count
                * 2_000_000_000
            &&& job.attempt_count > 30 ==> available_at == now + 60_000_000_000
        }),
        !(request.retryable && job.attempt_count < job.max_attempts) && 0
            <= job.reserved_cost_micro <= job.account_reserved_micro ==> (failure_answer(
            request,
            worker_user_id,
            None,
            Some(job),
            now,
        ) matches Ok(FailureAnswer::New(FailureStep::Fail { account_reserved_after_micro }))
            && account_reserved_after_micro == job.account_reserved_micro
            - job.reserved_cost_micro),
{
}

/// A report that does not come from the device with a live lease changes nothing: another
/// account, node or device is turned away, and so is a report on a job that is not leased,
/// or on a lease that ran out.
pub proof fn only_live_leases_fail(
    request: JobFailRequest,
    worker_user_id: Uuid,
    job: FailingJob,
    now: i128,
)
    ensures
        failure_answer(request, worker_user_id, None, Some(job), now) is Ok ==> {
            &&& job.node_user_id == worker_user_id
            &&& job.leased_to_node_id == request.node_id
            &&& job.claim_device_bound
            &&& job.status@ == "leased"@
            &&& job.lease_is_valid
        },
        failure_answer(request, worker_user_id, None, None, now) == Err::<FailureAnswer, ApiError>(
            ApiError::NotFound { resource: "任务" },
        ),
{
}

/// A report is taken as a repetition exactly if the same device of the same account reports
/// the same failure of the same node in the same words; it then leads to nothing new.
pub proof fn failure_reports_are_repeated_exactly(
    request: JobFailRequest,
    worker_user_id: Uuid,
    existing: ReportedFailure,
    job: Option<FailingJob>,
    now: i128,
)
    ensures
        failure_answer(request, worker_user_id, Some(existing), job, now) is Ok <==> {
            &&& existing.node_user_id == worker_user_id
            &&& existing.node_id == request.node_id
            &&& existing.claim_device_bound
            &&& existing.error_class matches Some(class) && class@ == request.error_class.key()
            &&& existing.error_message matches Some(message) && message@
                == request.error_message@
            &&& existing.retryable_requested == Some(request.retryable)
        },
        failure_answer(request, worker_user_id, Some(existing), job, now) matches Ok(answer)
            ==> answer == FailureAnswer::Replay,
{
}

/// A usage is accepted exactly if it adds up, fits, and is what the node reports.
pub proof fn usages_must_agree(usage: Usage, input: i32, output: i32)
    ensures
        reported_usage_refusal(usage, input as int, output as int) is None <==> {
            &&& usage.prompt_tokens == input
            &&& usage.completion_tokens == output
            &&& usage.total_tokens == usage.prompt_tokens + usage.completion_tokens
        },
{
}

/// A result is accepted only with a response that has a choice, comes from the model that
/// was asked for, and whose usage adds up to what the node reports; for a chat the first
/// choice must be some text. Whatever has all of that is accepted.
pub proof fn results_are_accepted_exactly_if_they_answer(
    endpoint: Endpoint,
    response: Option<InferenceResponse>,
    model: Seq<char>,
    input: i32,
    output: i32,
)
    ensures
        response_refusal(endpoint, response, model, input as int, output as int) is None <==> {
            &&& endpoint != Endpoint::Other
            &&& response matches Some(answer) && {
                &&& answer.choices > 0
                &&& answer.model@ == model
                &&& answer.usage.prompt_tokens == input
                &&& answer.usage.completion_tokens == output
                &&& answer.usage.total_tokens == answer.usage.prompt_tokens
                    + answer.usage.completion_tokens
                &&& endpoint == Endpoint::ChatCompletions ==> (answer.first_text matches Some(
                    said,
                ) && exists|i: int|
                    0 <= i < said@.len() && !text::is_whitespace(#[trigger] said@[i]))
            }
        },
        response_refusal(endpoint, response, model, input as int, output as int) == Some(
            ApiError::BadRequest {
                code: "model_binding_mismatch",
                message: "补全任务结果模型与任务载荷不一致",
            },
        ) ==> (response matches Some(answer) && answer.model@ != model),
{
    if let Some(answer) = response {
        if let Some(said) = answer.first_text {
            text::trimming_keeps_what_is_written(said@);
        }
    }
}

/// A request is valid exactly if it names the model of its payload and authorises the tokens
/// that the payload needs.
pub proof fn requests_must_cover_their_payload(request: CreateJobRequest, limits: StandardLimits)
    ensures
        create_refusal(request, limits) is None <==> {
            &&& request.virtual_model@ == limits.model@
            &&& request.estimated_input_tokens >= limits.minimum_input_tokens
            &&& request.max_output_tokens >= limits.maximum_output_tokens
        },
{
}

/// An account can reserve exactly what it can spend and has not reserved; the reservation is
/// added in whole.
pub proof fn accounts_reserve_what_is_free(spendable: i64, reserved: i64, reservation: i64)
    requires
        0 <= reserved,
        0 <= reservation,
    ensures
        reserved_after(spendable as int, reserved as int, reservation as int) == if reserved
            + reservation <= spendable {
            Ok::<i64, ApiError>((reserved + reservation) as i64)
        } else {
            Err::<i64, ApiError>(ApiError::InsufficientQuota)
        },
{
}

/// A job is tried once, and once more for each retry that is allowed; a streaming job is
/// tried once.
pub proof fn retries_come_on_top(max_job_retries: i32)
    ensures
        attempts(true, max_job_retries) == 1,
        0 <= max_job_retries < i32::MAX ==> attempts(false, max_job_retries) == max_job_retries
            + 1,
        max_job_retries < 0 ==> attempts(false, max_job_retries) == 1,
{
}

/// A payload is taken exactly if it decodes in its own encoding to some bytes, but no more
/// than 900,000; a Regulated envelope never is.
pub proof fn payloads_are_decoded_in_their_encoding(encoded: Seq<char>, bytes: Seq<u8>)
    ensures
        decoded_payload(PayloadEncoding::Base64, encoded) == Ok::<Seq<u8>, ApiError>(bytes)
            <==> crypto::base64_bytes(encoded) == Some(bytes) && 1 <= bytes.len() <= 900_000,
        decoded_payload(PayloadEncoding::Base64Url, encoded) == Ok::<Seq<u8>, ApiError>(bytes)
            <==> crypto::base64_url_bytes(encoded) == Some(bytes) && 1 <= bytes.len() <= 900_000,
        decoded_payload(PayloadEncoding::RegulatedAeadV1, encoded) is Err,
        decoded_result(encoded) == Ok::<Seq<u8>, ApiError>(bytes) <==> crypto::base64_bytes(encoded)
            == Some(bytes) && bytes.len() <= 900_000,
{
}

/// What a request carries is decoded as what it says it is, and is no Regulated envelope.
pub proof fn requests_carry_standard_payloads(request: CreateJobRequest, bytes: Seq<u8>)
    requires
        requested_payload(request) == Ok::<Seq<u8>, ApiError>(bytes),
    ensures
        request.payload_encoding == PayloadEncoding::Base64 || request.payload_encoding
            == PayloadEncoding::Base64Url,
        request.payload_encoding == PayloadEncoding::Base64 ==> crypto::base64_bytes(
            request.encrypted_payload@,
        ) == Some(bytes),
        request.payload_encoding == PayloadEncoding::Base64Url ==> crypto::base64_url_bytes(
            request.encrypted_payload@,
        ) == Some(bytes),
        1 <= bytes.len() <= 900_000,
{
}

/// A stored text is the text whose UTF-8 bytes are in the envelope, and only in the present
/// version of the storage.
pub proof fn stored_texts_are_what_was_sealed(
    key: Seq<u8>,
    job_id: Uuid,
    direction: StorageDirection,
    version: Option<i16>,
    stored: Seq<char>,
    plain: Seq<char>,
)
    ensures
        version == Some(1i16) && standard_data::stored_value(key, job_id, direction, stored) == Some(
            vstd::utf8::encode_utf8(plain),
        ) ==> stored_text(key, job_id, direction, version, stored) == Some(plain),
        stored_text(key, job_id, direction, version, stored) == Some(plain) ==> version == Some(
            1i16,
        ) && standard_data::stored_value(key, job_id, direction, stored) == Some(
            vstd::utf8::encode_utf8(plain),
        ),
{
    vstd::utf8::encode_utf8_valid_utf8(plain);
    vstd::utf8::encode_utf8_decode_utf8(plain);
    if let Some(bytes) = standard_data::stored_value(key, job_id, direction, stored) {
        if vstd::utf8::valid_utf8(bytes) {
            vstd::utf8::decode_utf8_encode_utf8(bytes);
        }
    }
}

/// A new job is created exactly if the account is not found abusive, the speed that the model
/// name asks for is one, a model was selected, a profile prices it, and the account can
/// reserve the cost. Where the key is taken, nothing but the fingerprint counts.
pub proof fn jobs_are_created_exactly_if_all_agree(
    request_fingerprint: Seq<char>,
    facts: CreationFacts,
)
    requires
        facts.billing matches Some(billing) ==> 0 <= billing.reservation_micro,
        0 <= facts.reserved_micro,
    ensures
        facts.existing is None ==> (creation_refusal(request_fingerprint, facts) is None <==> {
            &&& facts.assessment == Ok::<bool, AntiAbuseError>(true)
            &&& facts.speed_problem is None
            &&& facts.selected is Ok
            &&& facts.billing matches Some(billing) && facts.reserved_micro
                + billing.reservation_micro <= facts.spendable_micro
        }),
        facts.existing matches Some(stored) ==> (creation_refusal(request_fingerprint, facts)
            is None <==> (stored matches Some(fingerprint) && fingerprint@
            == request_fingerprint)),
{
}

/// A job that is queued is the one that was asked for: on the model that was selected, at the
/// cost of the profile, which is added to the reservations of the account, with the payload
/// of the request under seal, and with its attempts.
pub proof fn queued_jobs_are_what_was_asked_for(
    created: CreatedJob,
    key: Seq<u8>,
    job_id: Uuid,
    request: CreateJobRequest,
    stream: bool,
    max_job_retries: i32,
    facts: CreationFacts,
)
    requires
        is_queued(created, key, job_id, request, stream, max_job_retries, facts),
        0 <= max_job_retries < i32::MAX,
        facts.billing matches Some(billing) ==> 0 <= billing.reservation_micro,
        0 <= facts.reserved_micro,
    ensures
        created matches CreatedJob::Queued { model_id, reservation_micro, placed } && {
            &&& facts.selected matches Ok(model) && model.id == model_id
            &&& facts.billing matches Some(billing) && billing.reservation_micro
                == reservation_micro
            &&& placed.reserved_after_micro == facts.reserved_micro + reservation_micro
            &&& placed.reserved_after_micro <= facts.spendable_micro
            &&& stream ==> placed.max_attempts == 1
            &&& !stream ==> placed.max_attempts == max_job_retries + 1
            &&& standard_data::stored_value(
                key,
                job_id,
                StorageDirection::Payload,
                placed.stored_payload@,
            ) == Some(vstd::utf8::encode_utf8(request.encrypted_payload@))
        },
{
    if let CreatedJob::Queued { placed, .. } = created {
        stored_texts_are_what_was_sealed(
            key,
            job_id,
            StorageDirection::Payload,
            Some(STORAGE_VERSION),
            placed.stored_payload@,
            request.encrypted_payload@,
        );
    }
}

/// A node gets the job that it claims and nothing else: every part of the answer is the one
/// of the candidate, as the next attempt. A Standard payload comes in the clear, and what is
/// Regulated comes as it is stored.
pub proof fn claims_hand_over_the_candidate(
    response: ClaimJobResponse,
    key: Seq<u8>,
    candidate: CandidateJob,
    lease_expires_at: i128,
)
    requires
        answers_claim(response, key, candidate, lease_expires_at),
    ensures
        response.job_id == candidate.job_id,
        response.model_instance_id == candidate.model_instance_id,
        response.model@ == candidate.model_name@,
        response.model_weights_hash@ == candidate.weights_hash@,
        response.tags@ == candidate.tags@,
        response.estimated_input_tokens == candidate.estimated_input_tokens,
        response.max_output_tokens == candidate.max_output_tokens,
        candidate.attempt_count < i32::MAX ==> response.attempt == candidate.attempt_count + 1,
        response.lease_expires_at == lease_expires_at,
        response.policy_check_required_before_execution,
        response.regulated_route_id == candidate.regulated_route_id,
        response.attestation_report_id == candidate.attestation_report_id,
        response.tee_public_key == candidate.tee_public_key,
        response.confidentiality == ConfidentialityMode::Standard <==> candidate.confidentiality@
            == "standard"@,
        response.confidentiality == ConfidentialityMode::Regulated <==> candidate.confidentiality@
            == "regulated"@,
        candidate.confidentiality@ == "regulated"@ ==> response.encrypted_payload@
            == candidate.encrypted_payload@,
        candidate.confidentiality@ == "standard"@ ==> candidate.standard_payload_storage_version
            == Some(1i16) && standard_data::stored_value(
            key,
            candidate.job_id,
            StorageDirection::Payload,
            candidate.encrypted_payload@,
        ) == Some(vstd::utf8::encode_utf8(response.encrypted_payload@)),
{
    reveal_strlit("standard");
    reveal_strlit("regulated");
    assert("standard"@[0] == 's' && "regulated"@[0] == 'r');
    if candidate.confidentiality@ == "standard"@ {
        stored_texts_are_what_was_sealed(
            key,
            candidate.job_id,
            StorageDirection::Payload,
            candidate.standard_payload_storage_version,
            candidate.encrypted_payload@,
            response.encrypted_payload@,
        );
    }
}

/// A profile prices a job exactly if it is of the present contract, for the weights of the
/// model, and can be quoted and reserved for.
pub proof fn profiles_price_their_own_weights(
    contract_version: Seq<char>,
    profile_weights_hash: Seq<char>,
    model_weights_hash: Seq<char>,
    quote: Option<BillingQuote>,
    reservation_micro: Option<i64>,
)
    ensures
        profile_prices(
            contract_version,
            profile_weights_hash,
            model_weights_hash,
            quote,
            reservation_micro,
        ) <==> contract_version == "server_reference_upper_bound_v1"@ && profile_weights_hash
            == model_weights_hash && quote is Some && reservation_micro is Some,
{
}

/// An assessment that failed never lets a job through, and which failure it was is told only
/// where it is the caller's.
pub proof fn assessment_failures_are_told_apart(failure: AntiAbuseError)
    ensures
        failure == AntiAbuseError::IdempotencyConflict <==> anti_abuse_refusal(failure) is Conflict,
        failure == AntiAbuseError::MissingDeviceBinding <==> anti_abuse_refusal(failure)
            == ApiError::AntiAbuseBlocked,
        failure == AntiAbuseError::Database || failure == AntiAbuseError::InvalidInput
            <==> anti_abuse_refusal(failure) == ApiError::Internal,
{
}

/// The payload of a Standard job is stored in one of the two spellings of base64, and in no other
/// form.
pub proof fn standard_payloads_are_in_base64(encoding: Seq<char>)
    ensures
        standard_encoding(encoding) == Some(PayloadEncoding::Base64) <==> encoding == "base64"@,
        standard_encoding(encoding) == Some(PayloadEncoding::Base64Url) <==> encoding
            == "base64url"@,
        standard_encoding(encoding) is Some ==> encoding == "base64"@ || encoding == "base64url"@,
{
    reveal_strlit("base64");
    reveal_strlit("base64url");
    assert("base64"@.len() == 6 && "base64url"@.len() == 9);
}

/// A candidate can be handed over exactly if its payload can be read, and if its encoding, its
/// confidentiality and, where it has one, its provider are known.
pub proof fn readable_candidates_are_handed_over(key: Seq<u8>, candidate: CandidateJob)
    ensures
        is_readable(key, candidate) <==> {
            &&& candidate.confidentiality@ == "regulated"@ || (candidate.confidentiality@
                == "standard"@ && exists|plain: Seq<char>|
                candidate.standard_payload_storage_version == Some(1i16)
                    && standard_data::stored_value(
                    key,
                    candidate.job_id,
                    StorageDirection::Payload,
                    candidate.encrypted_payload@,
                ) == Some(#[trigger] vstd::utf8::encode_utf8(plain)))
            &&& candidate.payload_encoding@ == "base64"@ || candidate.payload_encoding@
                == "base64url"@ || candidate.payload_encoding@ == "regulated_aead_v1"@
            &&& candidate.attestation_provider matches Some(provider) ==> provider@
                == "amd_sev_snp"@ || provider@ == "intel_tdx"@
        },
{
    reveal_strlit("standard");
    reveal_strlit("regulated");
    assert("standard"@[0] == 's' && "regulated"@[0] == 'r');
    assert(PayloadEncoding::Base64.name() == "base64"@);
    assert(PayloadEncoding::Base64Url.name() == "base64url"@);
    assert(PayloadEncoding::RegulatedAeadV1.name() == "regulated_aead_v1"@);
    assert(ConfidentialityMode::Standard.name() == "standard"@);
    assert(ConfidentialityMode::Regulated.name() == "regulated"@);
    assert(AttestationProvider::AmdSevSnp.name() == "amd_sev_snp"@);
    assert(AttestationProvider::IntelTdx.name() == "intel_tdx"@);
    let version = candidate.standard_payload_storage_version;
    let stored = candidate.encrypted_payload@;
    let direction = StorageDirection::Payload;
    let read = stored_text(key, candidate.job_id, direction, version, stored);
    if let Some(plain) = read {
        stored_texts_are_what_was_sealed(key, candidate.job_id, direction, version, stored, plain);
    } else {
        assert forall|plain: Seq<char>| version == Some(
            1i16,
        ) implies standard_data::stored_value(key, candidate.job_id, direction, stored) != Some(
            #[trigger] vstd::utf8::encode_utf8(plain),
        ) by {
            stored_texts_are_what_was_sealed(
                key,
                candidate.job_id,
                direction,
                version,
                stored,
                plain,
            );
        }
    }
}

/// A repeated report is refused as a conflict or as another's, and never for a reason of its own.
pub proof fn other_reports_are_refused(
    request: JobFailRequest,
    worker_user_id: Uuid,
    existing: ReportedFailure,
)
    ensures
        existing.node_user_id != worker_user_id || existing.node_id != request.node_id
            || !existing.claim_device_bound ==> (repeated_failure_refusal(
            request,
            worker_user_id,
            existing,
        ) matches Some(refused) && refused is Forbidden),
{
}

/// A result is refused for what is wrong with it first: that it is none, that another model gave
/// it, that a chat says nothing, or that its usage is not the one that the node reports.
pub proof fn results_are_refused_for_a_reason(
    endpoint: Endpoint,
    response: Option<InferenceResponse>,
    model: Seq<char>,
    input: int,
    output: int,
)
    requires
        endpoint != Endpoint::Other,
    ensures
        response is None ==> (response_refusal(endpoint, response, model, input, output)
            matches Some(ApiError::BadRequest { code, .. }) && code == "invalid_job_result"),
        response matches Some(answer) ==> {
            let refusal = response_refusal(endpoint, response, model, input, output);
            &&& answer.choices == 0 ==> (refusal matches Some(ApiError::BadRequest { code, .. })
                && code == "invalid_job_result")
            &&& answer.choices > 0 && answer.model@ != model ==> (refusal matches Some(
                ApiError::BadRequest { code, .. },
            ) && code == "model_binding_mismatch")
            &&& answer.choices > 0 && answer.model@ == model && endpoint
                == Endpoint::ChatCompletions && answer.first_text is None ==> (refusal matches Some(
                ApiError::BadRequest { code, .. },
            ) && code == "invalid_job_result")
            &&& answer.choices > 0 && answer.model@ == model && endpoint == Endpoint::Completions
                && answer.usage.prompt_tokens <= 0x7fff_ffff && answer.usage.completion_tokens
                <= 0x7fff_ffff && (answer.usage.prompt_tokens != input
                || answer.usage.completion_tokens != output || answer.usage.total_tokens
                != answer.usage.prompt_tokens + answer.usage.completion_tokens) ==> (
            refusal matches Some(ApiError::BadRequest { code, .. }) && code
                == "usage_binding_mismatch")
        },
{
}

/// A failure report is refused for who sends it, for a job that is not leased, or for a lease that
/// is over, in this order.
pub proof fn failure_reports_are_refused_for_a_reason(
    request: JobFailRequest,
    worker_user_id: Uuid,
    job: FailingJob,
    now: i128,
)
    ensures
        job.node_user_id != worker_user_id || job.leased_to_node_id != request.node_id
            || !job.claim_device_bound ==> (failure_answer(
            request,
            worker_user_id,
            None,
            Some(job),
            now,
        ) matches Err(refused) && refused is Forbidden),
        job.node_user_id == worker_user_id && job.leased_to_node_id == request.node_id
            && job.claim_device_bound && job.status@ != "leased"@ ==> (failure_answer(
            request,
            worker_user_id,
            None,
            Some(job),
            now,
        ) matches Err(ApiError::Conflict { code, .. }) && code == "job_not_leased"),
        job.node_user_id == worker_user_id && job.leased_to_node_id == request.node_id
            && job.claim_device_bound && job.status@ == "leased"@ && !job.lease_is_valid ==> (
        failure_answer(request, worker_user_id, None, Some(job), now) matches Err(
            ApiError::Conflict { code, .. },
        ) && code == "lease_expired"),
{
}

/// A job is refused for what is wrong with it first: a key that stands for another request, abuse,
/// a speed that is none, no model, no price, or too little quota.
pub proof fn jobs_are_refused_for_a_reason(request_fingerprint: Seq<char>, facts: CreationFacts)
    ensures
        facts.existing is Some && creation_refusal(request_fingerprint, facts) is Some ==> (
        creation_refusal(request_fingerprint, facts) matches Some(ApiError::Conflict { code, .. })
            && code == "idempotency_binding_mismatch"),
        facts.existing is None && facts.assessment == Ok::<bool, AntiAbuseError>(false)
            ==> creation_refusal(request_fingerprint, facts) == Some(ApiError::AntiAbuseBlocked),
        facts.existing is None && facts.assessment is Err ==> creation_refusal(
            request_fingerprint,
            facts,
        ) == Some(anti_abuse_refusal(facts.assessment->Err_0)),
        facts.existing is None && facts.assessment == Ok::<bool, AntiAbuseError>(true) ==> {
            &&& facts.speed_problem is Some ==> (creation_refusal(request_fingerprint, facts)
                matches Some(ApiError::BadRequestReason { code, detail }) && code == "invalid_job"
                && facts.speed_problem == Some(detail))
            &&& facts.speed_problem is None && facts.selected is Err ==> creation_refusal(
                request_fingerprint,
                facts,
            ) == Some(facts.selected->Err_0)
            &&& facts.speed_problem is None && facts.selected is Ok && facts.billing is None ==> (
            creation_refusal(request_fingerprint, facts) matches Some(refused) && refused
                is Unavailable)
            &&& facts.speed_problem is None && facts.selected is Ok && (
            facts.billing matches Some(billing) && 0 <= facts.reserved_micro
                && facts.reserved_micro + billing.reservation_micro > facts.spendable_micro
                && billing.reservation_micro >= 0) ==> creation_refusal(request_fingerprint, facts)
                == Some(ApiError::InsufficientQuota)
        },
{
}

/// A request is refused for its model first, and then for the tokens that it authorises.
pub proof fn requests_are_refused_for_a_reason(request: CreateJobRequest, limits: StandardLimits)
    ensures
        request.virtual_model@ != limits.model@ ==> (create_refusal(request, limits) matches Some(
            ApiError::BadRequest { code, .. },
        ) && code == "model_binding_mismatch"),
        request.virtual_model@ == limits.model@ && (request.estimated_input_tokens
            < limits.minimum_input_tokens || request.max_output_tokens
            < limits.maximum_output_tokens) ==> (create_refusal(request, limits) matches Some(
            ApiError::BadRequest { code, .. },
        ) && code == "usage_authorization_too_small"),
{
}

} // verus!
