//! Settling a finished job: who may hand in a result, what the settlement is based
//! on, and which ledger entries it makes. The reserve, and what may be released
//! from it.

use vstd::prelude::*;

use crate::arithmetic;
use crate::billing;
use crate::billing::{BillingQuote, JobBillingRow, JobBillingSnapshot, sha256_hex};
use crate::crypto;
use crate::error;
use crate::error::ApiError;
use crate::ids::Uuid;
use crate::standard_data;
use crate::standard_data::{StorageDirection, STORAGE_VERSION};
use crate::text;

verus! {

/// A result that a node hands in.
pub struct CompleteJob {
    pub job_id: Uuid,
    pub node_id: Uuid,
    pub worker_user_id: Uuid,
    pub claim_device_key_id: Uuid,
    pub idempotency_key: String,
    pub result_ciphertext: String,
    pub actual_input_tokens: i32,
    pub actual_output_tokens: i32,
}

/// What the database holds of a job and of the node that leases it.
pub struct SubmissionRow {
    pub status: String,
    pub leased_to_node_id: Option<Uuid>,
    pub node_user_id: Uuid,
    pub node_device_key_id: Option<Uuid>,
    pub claim_device_key_id: Option<Uuid>,
    pub claim_device_binding_version: Option<i32>,
    pub confidentiality: String,
    pub result_idempotency_key: Option<String>,
    pub result_ciphertext: Option<String>,
    pub standard_result_storage_version: Option<i16>,
    pub result_telemetry_fingerprint: Option<String>,
    pub actual_input_tokens: Option<i32>,
    pub actual_output_tokens: Option<i32>,
}

/// How a result that may be handed in is dealt with.
#[derive(Clone, Copy, Debug, PartialEq, Eq, Structural)]
pub enum SubmissionStep {
    /// It was settled before, with the very same content.
    Replay,
    /// It is new.
    Settle,
}

/// Whether an optional identifier is this one.
pub fn is_id(value: Option<Uuid>, id: Uuid) -> (same: bool)
    ensures
        same == (value == Some(id)),
{
    match value {
        Some(present) => present.value == id.value,
        None => false,
    }
}

/// Whether an optional number is this one.
pub fn is_number(value: Option<i32>, number: i32) -> (same: bool)
    ensures
        same == (value == Some(number)),
{
    match value {
        Some(present) => present == number,
        None => false,
    }
}

pub open spec fn usage_refusal(input: int, output: int) -> Option<ApiError> {
    if input < 0 || output < 0 || (input == 0 && output == 0) {
        Some(ApiError::bad_request("invalid_usage", "Token 使用量不能为负数或全部为零"))
    } else {
        None
    }
}

/// Checks the reported token usage: no negative number, and not nothing at all.
pub fn check_usage(input: i32, output: i32) -> (checked: Result<(), ApiError>)
    ensures
        checked == error::unless(usage_refusal(input as int, output as int), ()),
{
    if input < 0 || output < 0 || (input == 0 && output == 0) {
        return Err(ApiError::bad_request("invalid_usage", "Token 使用量不能为负数或全部为零"));
    }
    Ok(())
}

/// The lease is held by the node, the account and the device that hand in the
/// result.
pub open spec fn lease_refusal(
    command: CompleteJob,
    row: SubmissionRow,
    binding_version: i32,
) -> Option<ApiError> {
    if row.leased_to_node_id != Some(command.node_id) {
        Some(ApiError::forbidden("任务租约不属于当前节点"))
    } else if row.node_user_id != command.worker_user_id || row.node_device_key_id != Some(
        command.claim_device_key_id,
    ) || row.claim_device_key_id != Some(command.claim_device_key_id)
        || row.claim_device_binding_version != Some(binding_version) {
        Some(ApiError::forbidden("任务租约不属于当前设备"))
    } else {
        None
    }
}

fn check_lease(command: &CompleteJob, row: &SubmissionRow, binding_version: i32) -> (checked: Result<
    (),
    ApiError,
>)
    ensures
        checked == error::unless(lease_refusal(*command, *row, binding_version), ()),
{
    if !is_id(row.leased_to_node_id, command.node_id) {
        return Err(ApiError::forbidden("任务租约不属于当前节点"));
    }
    if row.node_user_id != command.worker_user_id || !is_id(
        row.node_device_key_id,
        command.claim_device_key_id,
    ) || !is_id(row.claim_device_key_id, command.claim_device_key_id) || !is_number(
        row.claim_device_binding_version,
        binding_version,
    ) {
        return Err(ApiError::forbidden("任务租约不属于当前设备"));
    }
    Ok(())
}

/// Whether the stored result of a settled job is the submitted one; `None` where the
/// stored result cannot be read.
pub open spec fn stored_result_is(
    key: Seq<u8>,
    job_id: Uuid,
    row: SubmissionRow,
    submitted: Seq<char>,
) -> Option<bool> {
    if row.confidentiality@ == "standard"@ {
        match row.result_ciphertext {
            Some(stored) => if row.standard_result_storage_version == Some(STORAGE_VERSION) {
                match standard_data::stored_value(
                    key,
                    job_id,
                    StorageDirection::Result,
                    stored@,
                ) {
                    Some(plaintext) => Some(plaintext == vstd::utf8::encode_utf8(submitted)),
                    None => None,
                }
            } else {
                Some(false)
            },
            None => Some(false),
        }
    } else if row.confidentiality@ == "regulated"@ {
        Some(text::holds(row.result_ciphertext, submitted))
    } else {
        None
    }
}

fn stored_result_matches(
    key: &[u8; 32],
    job_id: Uuid,
    row: &SubmissionRow,
    submitted: &str,
) -> (matches_stored: Result<bool, ApiError>)
    ensures
        matches_stored == match stored_result_is(key@, job_id, *row, submitted@) {
            Some(same) => Ok::<bool, ApiError>(same),
            None => Err::<bool, ApiError>(ApiError::internal()),
        },
{
    if text::same_text(row.confidentiality.as_str(), "standard") {
        match (&row.result_ciphertext, row.standard_result_storage_version) {
            (Some(stored), Some(version)) => if version == STORAGE_VERSION {
                match standard_data::decrypt_from_storage(
                    key,
                    job_id,
                    StorageDirection::Result,
                    stored.as_str(),
                ) {
                    Ok(mut plaintext) => {
                        let same = text::same_bytes(plaintext.as_slice(), submitted.as_bytes());
                        crypto::wipe_bytes(&mut plaintext);
                        Ok(same)
                    },
                    Err(_) => Err(ApiError::internal()),
                }
            } else {
                Ok(false)
            },
            _ => Ok(false),
        }
    } else if text::same_text(row.confidentiality.as_str(), "regulated") {
        Ok(text::option_holds(&row.result_ciphertext, submitted))
    } else {
        Err(ApiError::internal())
    }
}

/// The submission repeats, in every part, the one that the job was settled with.
pub open spec fn repeats_settled_submission(
    command: CompleteJob,
    row: SubmissionRow,
    same_result: bool,
    telemetry_fingerprint: Seq<char>,
) -> bool {
    &&& text::holds(row.result_idempotency_key, command.idempotency_key@)
    &&& same_result
    &&& row.actual_input_tokens == Some(command.actual_input_tokens)
    &&& row.actual_output_tokens == Some(command.actual_output_tokens)
    &&& text::holds(row.result_telemetry_fingerprint, telemetry_fingerprint)
}

pub open spec fn submission(
    key: Seq<u8>,
    command: CompleteJob,
    row: SubmissionRow,
    telemetry_fingerprint: Seq<char>,
    binding_version: i32,
) -> Result<SubmissionStep, ApiError> {
    if let Some(refused) = usage_refusal(
        command.actual_input_tokens as int,
        command.actual_output_tokens as int,
    ) {
        Err(refused)
    } else if let Some(refused) = lease_refusal(command, row, binding_version) {
        Err(refused)
    } else if row.status@ == "succeeded"@ {
        match stored_result_is(key, command.job_id, row, command.result_ciphertext@) {
            None => Err(ApiError::internal()),
            Some(same_result) => if repeats_settled_submission(
                command,
                row,
                same_result,
                telemetry_fingerprint,
            ) {
                Ok(SubmissionStep::Replay)
            } else {
                Err(
                    ApiError::conflict(
                        "idempotency_binding_mismatch",
                        "结果幂等键已绑定到不同节点、密文、Token 使用量或任务遥测",
                    ),
                )
            },
        }
    } else if row.status@ != "leased"@ {
        Err(ApiError::conflict("job_not_leased", "任务当前不处于可提交结果的租约状态"))
    } else {
        Ok(SubmissionStep::Settle)
    }
}

/// Decides whether a result may be handed in, and whether it repeats one that was
/// settled. A repetition must match in every part; anything else under a settled
/// job is a conflict.
pub fn classify_submission(
    key: &[u8; 32],
    command: &CompleteJob,
    row: &SubmissionRow,
    telemetry_fingerprint: &str,
    binding_version: i32,
) -> (step: Result<SubmissionStep, ApiError>)
    ensures
        step == submission(key@, *command, *row, telemetry_fingerprint@, binding_version),
{
    check_usage(command.actual_input_tokens, command.actual_output_tokens)?;
    check_lease(command, row, binding_version)?;
    if text::same_text(row.status.as_str(), "succeeded") {
        let same_result = stored_result_matches(
            key,
            command.job_id,
            row,
            command.result_ciphertext.as_str(),
        )?;
        if !text::option_holds(&row.result_idempotency_key, command.idempotency_key.as_str())
            || !same_result || !is_number(row.actual_input_tokens, command.actual_input_tokens)
            || !is_number(row.actual_output_tokens, command.actual_output_tokens)
            || !text::option_holds(&row.result_telemetry_fingerprint, telemetry_fingerprint) {
            return Err(
                ApiError::conflict(
                    "idempotency_binding_mismatch",
                    "结果幂等键已绑定到不同节点、密文、Token 使用量或任务遥测",
                ),
            );
        }
        return Ok(SubmissionStep::Replay);
    }
    if !text::same_text(row.status.as_str(), "leased") {
        return Err(ApiError::conflict("job_not_leased", "任务当前不处于可提交结果的租约状态"));
    }
    Ok(SubmissionStep::Settle)
}

/// A device that does not hold the lease is turned away, whatever state the job is
/// in and whatever it submits.
pub proof fn only_the_leasing_device_hands_in_results(
    key: Seq<u8>,
    command: CompleteJob,
    row: SubmissionRow,
    telemetry_fingerprint: Seq<char>,
    binding_version: i32,
)
    requires
        row.leased_to_node_id != Some(command.node_id) || row.node_user_id
            != command.worker_user_id || row.claim_device_key_id != Some(
            command.claim_device_key_id,
        ) || row.node_device_key_id != Some(command.claim_device_key_id),
    ensures
        submission(key, command, row, telemetry_fingerprint, binding_version) is Err,
{
}

/// A settled job never settles a second time: under it, a submission is a
/// repetition or an error.
pub proof fn settled_jobs_do_not_settle_again(
    key: Seq<u8>,
    command: CompleteJob,
    row: SubmissionRow,
    telemetry_fingerprint: Seq<char>,
    binding_version: i32,
)
    requires
        row.status@ == "succeeded"@,
    ensures
        submission(key, command, row, telemetry_fingerprint, binding_version) != Ok::<
            SubmissionStep,
            ApiError,
        >(SubmissionStep::Settle),
{
}

/// A Regulated result envelope: which way it travels and what it is bound to.
pub struct ResultEnvelope {
    pub is_result: bool,
    pub route_id: Uuid,
    pub report_id: Uuid,
    pub model_instance_id: Uuid,
    pub sender_public_key: String,
}

/// What a Regulated job is bound to.
pub struct RegulatedBinding {
    pub route_id: Option<Uuid>,
    pub report_id: Option<Uuid>,
    pub model_instance_id: Option<Uuid>,
    pub tee_public_key: Option<String>,
}

/// Why a text is no Regulated envelope.
pub enum EnvelopeError {
    /// It cannot be read as one.
    Unreadable,
    /// It can be read, and breaks the rules of an envelope for this reason.
    Invalid { reason: String },
}

pub open spec fn result_binding_refusal(
    envelope: Result<ResultEnvelope, EnvelopeError>,
    binding: RegulatedBinding,
) -> Option<ApiError> {
    match envelope {
        Err(EnvelopeError::Unreadable) => Some(
            ApiError::attestation_failed("TEE 返回的结果不是严格 Regulated envelope"),
        ),
        Err(EnvelopeError::Invalid { reason }) => Some(
            ApiError::AttestationReason { detail: reason },
        ),
        Ok(envelope) => if !envelope.is_result || binding.route_id != Some(envelope.route_id)
            || binding.report_id != Some(envelope.report_id) || binding.model_instance_id != Some(
            envelope.model_instance_id,
        ) || !text::holds(binding.tee_public_key, envelope.sender_public_key@) {
            Some(
                ApiError::attestation_failed(
                    "TEE 结果 envelope 与任务 route/report/model/public-key 绑定不一致",
                ),
            )
        } else {
            None
        },
    }
}

/// Checks that a Regulated result is bound to the route, the report, the model
/// instance and the key of the job. A text that breaks the rules of an envelope is
/// answered with the reason.
pub fn validate_regulated_result_binding(
    envelope: Result<ResultEnvelope, EnvelopeError>,
    binding: &RegulatedBinding,
) -> (valid: Result<(), ApiError>)
    ensures
        valid == error::unless(result_binding_refusal(envelope, *binding), ()),
{
    match envelope {
        Err(EnvelopeError::Unreadable) => Err(
            ApiError::attestation_failed("TEE 返回的结果不是严格 Regulated envelope"),
        ),
        Err(EnvelopeError::Invalid { reason }) => Err(
            ApiError::AttestationReason { detail: reason },
        ),
        Ok(envelope) => if !envelope.is_result || !is_id(binding.route_id, envelope.route_id)
            || !is_id(binding.report_id, envelope.report_id) || !is_id(
            binding.model_instance_id,
            envelope.model_instance_id,
        ) || !text::option_holds(&binding.tee_public_key, envelope.sender_public_key.as_str()) {
            Err(
                ApiError::attestation_failed(
                    "TEE 结果 envelope 与任务 route/report/model/public-key 绑定不一致",
                ),
            )
        } else {
            Ok(())
        },
    }
}

/// How fast a model is.
#[derive(Clone, Copy, Debug, PartialEq, Eq, Structural)]
pub enum PerformanceTier {
    High,
    Medium,
    Low,
}

/// How far a node is trusted when its work is settled.
#[derive(Clone, Copy, Debug, PartialEq, Eq, Structural)]
pub enum TrustClass {
    Enhanced,
    Standard,
    Unverified,
}

pub open spec fn tier_named(tier: Seq<char>) -> Option<PerformanceTier> {
    if tier == "high"@ {
        Some(PerformanceTier::High)
    } else if tier == "medium"@ {
        Some(PerformanceTier::Medium)
    } else if tier == "low"@ {
        Some(PerformanceTier::Low)
    } else {
        None
    }
}

pub fn performance_tier(tier: &str) -> (named: Result<PerformanceTier, ApiError>)
    ensures
        named == match tier_named(tier@) {
            Some(tier) => Ok::<PerformanceTier, ApiError>(tier),
            None => Err::<PerformanceTier, ApiError>(ApiError::internal()),
        },
{
    if text::same_text(tier, "high") {
        Ok(PerformanceTier::High)
    } else if text::same_text(tier, "medium") {
        Ok(PerformanceTier::Medium)
    } else if text::same_text(tier, "low") {
        Ok(PerformanceTier::Low)
    } else {
        Err(ApiError::internal())
    }
}

pub open spec fn trust_class_named(trust_level: Seq<char>) -> Option<TrustClass> {
    if trust_level == "enhanced"@ {
        Some(TrustClass::Enhanced)
    } else if trust_level == "standard"@ || trust_level == "standard-limited"@ {
        Some(TrustClass::Standard)
    } else if trust_level == "unverified"@ || trust_level == "experimental"@ {
        Some(TrustClass::Unverified)
    } else {
        None
    }
}

pub fn trust_class(trust_level: &str) -> (named: Result<TrustClass, ApiError>)
    ensures
        named == match trust_class_named(trust_level@) {
            Some(class) => Ok::<TrustClass, ApiError>(class),
            None => Err::<TrustClass, ApiError>(ApiError::internal()),
        },
{
    if text::same_text(trust_level, "enhanced") {
        Ok(TrustClass::Enhanced)
    } else if text::same_text(trust_level, "standard") || text::same_text(
        trust_level,
        "standard-limited",
    ) {
        Ok(TrustClass::Standard)
    } else if text::same_text(trust_level, "unverified") || text::same_text(
        trust_level,
        "experimental",
    ) {
        Ok(TrustClass::Unverified)
    } else {
        Err(ApiError::internal())
    }
}

/// What a new result is checked against before it is settled. Times are nanoseconds
/// since the Unix epoch.
pub struct SettlementFacts {
    pub regulated_lease_valid: bool,
    pub result_envelope: Result<ResultEnvelope, EnvelopeError>,
    pub regulated_binding: RegulatedBinding,
    pub lease_expires_at: Option<i128>,
    pub now: i128,
    pub estimated_input_tokens: i32,
    pub max_output_tokens: i32,
    pub billing: JobBillingRow,
    pub quote: Option<BillingQuote>,
    pub tier: String,
    pub trust_level: String,
}

/// What the amounts of a settlement are calculated from.
pub struct SettlementBasis {
    pub billing: JobBillingSnapshot,
    pub base_cost_micro: i64,
    pub performance_tier: PerformanceTier,
    pub trust_class: TrustClass,
}

/// What happens to a new result.
pub enum SettlementStep {
    /// The Regulated lease lost its hardware trust: the job ends without a charge.
    TerminateLease,
    /// The result is settled.
    Settle(SettlementBasis),
}

pub open spec fn is_regulated(confidentiality: Seq<char>) -> bool {
    confidentiality == "regulated"@
}

pub open spec fn lease_expired(lease_expires_at: Option<i128>, now: i128) -> bool {
    !(lease_expires_at matches Some(expiry) && expiry > now)
}

pub open spec fn settlement_step(
    confidentiality: Seq<char>,
    facts: SettlementFacts,
    input: int,
    output: int,
) -> Result<SettlementStep, ApiError> {
    if is_regulated(confidentiality) && !facts.regulated_lease_valid {
        Ok(SettlementStep::TerminateLease)
    } else if let (true, Some(refused)) = (
        is_regulated(confidentiality),
        result_binding_refusal(facts.result_envelope, facts.regulated_binding),
    ) {
        Err(refused)
    } else if lease_expired(facts.lease_expires_at, facts.now) {
        Err(ApiError::conflict("lease_expired", "任务租约已经过期"))
    } else if let Some(refused) = billing::from_job_row_refusal(
        facts.billing,
        facts.estimated_input_tokens as int,
        facts.max_output_tokens as int,
    ) {
        Err(refused)
    } else if facts.quote != Some(facts.billing.snapshot().quote()) {
        Err(ApiError::internal())
    } else {
        match (
            billing::frozen_base(facts.billing.snapshot(), input, output),
            tier_named(facts.tier@),
            trust_class_named(facts.trust_level@),
        ) {
            (Err(refused), _, _) => Err(refused),
            (Ok(base), Some(tier), Some(class)) => Ok(
                SettlementStep::Settle(
                    SettlementBasis {
                        billing: facts.billing.snapshot(),
                        base_cost_micro: base,
                        performance_tier: tier,
                        trust_class: class,
                    },
                ),
            ),
            _ => Err(ApiError::internal()),
        }
    }
}

/// Decides what a new result is settled on. A Regulated lease must still be trusted
/// and its result bound to the job; the lease must be alive; the frozen billing
/// contract must be whole and repeat what the contract says; and the reported usage
/// must stay within what was authorised.
pub fn settlement_basis(
    confidentiality: &str,
    facts: SettlementFacts,
    actual_input_tokens: i32,
    actual_output_tokens: i32,
) -> (step: Result<SettlementStep, ApiError>)
    ensures
        step == settlement_step(
            confidentiality@,
            facts,
            actual_input_tokens as int,
            actual_output_tokens as int,
        ),
{
    if text::same_text(confidentiality, "regulated") {
        if !facts.regulated_lease_valid {
            return Ok(SettlementStep::TerminateLease);
        }
        validate_regulated_result_binding(facts.result_envelope, &facts.regulated_binding)?;
    }
    match facts.lease_expires_at {
        Some(expiry) => if expiry <= facts.now {
            return Err(ApiError::conflict("lease_expired", "任务租约已经过期"));
        },
        None => {
            return Err(ApiError::conflict("lease_expired", "任务租约已经过期"));
        },
    }
    let snapshot = JobBillingSnapshot::from_job_row(
        facts.billing,
        facts.estimated_input_tokens,
        facts.max_output_tokens,
    )?;
    snapshot.validate_frozen_quote(&facts.quote)?;
    let base_cost_micro = billing::frozen_base_for_authorized_usage(
        &snapshot,
        actual_input_tokens,
        actual_output_tokens,
    )?;
    let performance_tier = performance_tier(facts.tier.as_str())?;
    let trust_class = trust_class(facts.trust_level.as_str())?;
    Ok(
        SettlementStep::Settle(
            SettlementBasis { billing: snapshot, base_cost_micro, performance_tier, trust_class },
        ),
    )
}

/// What becomes of a result that is handed in.
pub enum Completion {
    /// The job was settled with the very same result: the settlement is told again.
    Replay,
    /// The result is new.
    New(SettlementStep),
}

pub open spec fn completion(
    key: Seq<u8>,
    command: CompleteJob,
    row: Option<SubmissionRow>,
    telemetry_fingerprint: Seq<char>,
    binding_version: i32,
    facts: SettlementFacts,
) -> Result<Completion, ApiError> {
    let input = command.actual_input_tokens as int;
    let output = command.actual_output_tokens as int;
    match (usage_refusal(input, output), row) {
        (Some(refused), _) => Err(refused),
        (None, None) => Err(ApiError::not_found("任务")),
        (None, Some(row)) => match submission(
            key,
            command,
            row,
            telemetry_fingerprint,
            binding_version,
        ) {
            Err(refused) => Err(refused),
            Ok(SubmissionStep::Replay) => Ok(Completion::Replay),
            Ok(SubmissionStep::Settle) => match settlement_step(
                row.confidentiality@,
                facts,
                input,
                output,
            ) {
                Ok(step) => Ok(Completion::New(step)),
                Err(refused) => Err(refused),
            },
        },
    }
}

/// Takes the result of a job: `row` is what the database holds of it, where it holds
/// anything. A result that was settled before is told again, whatever became of the
/// lease since; a new one is settled on what the job froze.
pub fn complete_job(
    key: &[u8; 32],
    command: &CompleteJob,
    row: &Option<SubmissionRow>,
    telemetry_fingerprint: &str,
    binding_version: i32,
    facts: SettlementFacts,
) -> (completed: Result<Completion, ApiError>)
    ensures
        completed == completion(
            key@,
            *command,
            *row,
            telemetry_fingerprint@,
            binding_version,
            facts,
        ),
{
    check_usage(command.actual_input_tokens, command.actual_output_tokens)?;
    match row {
        None => Err(ApiError::not_found("任务")),
        Some(row) => match classify_submission(
            key,
            command,
            row,
            telemetry_fingerprint,
            binding_version,
        )? {
            SubmissionStep::Replay => Ok(Completion::Replay),
            SubmissionStep::Settle => {
                let step = settlement_basis(
                    row.confidentiality.as_str(),
                    facts,
                    command.actual_input_tokens,
                    command.actual_output_tokens,
                )?;
                Ok(Completion::New(step))
            },
        },
    }
}

/// A Regulated job is never settled once its lease lost its hardware trust.
pub proof fn untrusted_regulated_leases_are_not_settled(
    confidentiality: Seq<char>,
    facts: SettlementFacts,
    input: int,
    output: int,
)
    requires
        is_regulated(confidentiality),
        !facts.regulated_lease_valid,
    ensures
        settlement_step(confidentiality, facts, input, output) == Ok::<SettlementStep, ApiError>(
            SettlementStep::TerminateLease,
        ),
{
}

/// What is answered once a Regulated lease was terminated.
#[verifier::allow_in_spec]
pub fn lease_trust_lost() -> ApiError
    returns
        ApiError::attestation_failed(
            "Regulated 租约的硬件报告、固定节点或模型绑定已失效；任务已终止且未计费",
        ),
{
    ApiError::attestation_failed(
        "Regulated 租约的硬件报告、固定节点或模型绑定已失效；任务已终止且未计费",
    )
}

/// The reservation that is left once one is released.
pub open spec fn released_reservation(reserved_micro: int, reservation_micro: int) -> Result<
    i64,
    ApiError,
> {
    if reservation_micro <= reserved_micro && reserved_micro - reservation_micro <= i64::MAX {
        Ok((reserved_micro - reservation_micro) as i64)
    } else {
        Err(ApiError::internal())
    }
}

/// Releases a reservation; an account that does not hold it is an internal error.
pub fn release_reservation(reserved_micro: i64, reservation_micro: i64) -> (left: Result<
    i64,
    ApiError,
>)
    ensures
        left == released_reservation(reserved_micro as int, reservation_micro as int),
{
    if reserved_micro < reservation_micro {
        return Err(ApiError::internal());
    }
    match reserved_micro.checked_sub(reservation_micro) {
        Some(left) => Ok(left),
        None => Err(ApiError::internal()),
    }
}

/// Ends a Regulated lease that lost its hardware trust: only a leased Regulated job
/// can end this way, and its whole reservation goes back to the consumer.
pub fn fail_regulated_lease_attestation(
    confidentiality: &str,
    status: &str,
    reserved_micro: i64,
    reservation_micro: i64,
) -> (left: Result<i64, ApiError>)
    ensures
        left == if confidentiality@ == "regulated"@ && status@ == "leased"@ {
            released_reservation(reserved_micro as int, reservation_micro as int)
        } else {
            Err::<i64, ApiError>(ApiError::internal())
        },
{
    if !text::same_text(confidentiality, "regulated") || !text::same_text(status, "leased") {
        return Err(ApiError::internal());
    }
    release_reservation(reserved_micro, reservation_micro)
}

/// The amounts that the settlement rules make of a base cost. None is negative.
#[derive(Clone, Copy, Debug, PartialEq, Eq, Structural)]
pub struct CalculatedSettlement {
    pub user_deduction_micro: i64,
    pub node_quota_micro: i64,
    pub contribution_points_micro: i64,
    pub reserve_micro: i64,
}

impl CalculatedSettlement {
    pub open spec fn valid(self) -> bool {
        &&& self.user_deduction_micro >= 0
        &&& self.node_quota_micro >= 0
        &&& self.contribution_points_micro >= 0
        &&& self.reserve_micro >= 0
    }
}

/// The balances that a settlement starts from, and the reservation of the job.
#[derive(Clone, Copy, Debug, PartialEq, Eq, Structural)]
pub struct SettlementBalances {
    pub consumer_user_id: Uuid,
    pub node_user_id: Uuid,
    pub reserved_cost_micro: i64,
    pub consumer_spendable_micro: i64,
    pub consumer_reserved_micro: i64,
    pub node_spendable_micro: i64,
    pub node_contribution_micro: i64,
    pub reserve_balance_micro: i64,
}

/// One entry of a ledger.
#[derive(Clone, Copy, Debug, PartialEq, Eq, Structural)]
pub struct LedgerStep {
    pub delta_micro: i64,
    pub before_micro: i64,
    pub after_micro: i64,
}

impl LedgerStep {
    /// The balance after the entry is the balance before it, plus the change.
    pub open spec fn balanced(self) -> bool {
        self.after_micro == self.before_micro + self.delta_micro
    }
}

/// The entries that one settlement makes.
#[derive(Clone, Copy, Debug, PartialEq, Eq, Structural)]
pub struct SettlementPlan {
    pub consumer: LedgerStep,
    pub node: LedgerStep,
    pub contribution: LedgerStep,
    pub reserve: LedgerStep,
    pub contribution_weight_ppm: i32,
    pub consumer_reserved_after_micro: i64,
}

/// The weight of a contribution: no more than either decision allows, and nothing
/// where none was made when the job was created.
pub open spec fn contribution_weight(precreate: Option<i32>, graph: i32) -> i32 {
    let created = match precreate {
        Some(weight) => weight,
        None => 0,
    };
    if created <= graph {
        created
    } else {
        graph
    }
}

pub open spec fn entry(before: int, delta: int) -> Option<LedgerStep> {
    if i64::MIN <= before + delta <= i64::MAX {
        Some(
            LedgerStep {
                delta_micro: delta as i64,
                before_micro: before as i64,
                after_micro: (before + delta) as i64,
            },
        )
    } else {
        None
    }
}

pub open spec fn settlement_plan(
    calculated: CalculatedSettlement,
    precreate_weight: Option<i32>,
    graph_weight: i32,
    balances: SettlementBalances,
) -> Result<SettlementPlan, ApiError> {
    let weight = contribution_weight(precreate_weight, graph_weight);
    let contribution = arithmetic::truncated(
        calculated.contribution_points_micro * weight,
        1_000_000,
    );
    if !(i64::MIN <= contribution <= i64::MAX) || calculated.user_deduction_micro
        > balances.reserved_cost_micro {
        Err(ApiError::internal())
    } else if balances.consumer_spendable_micro < calculated.user_deduction_micro {
        Err(ApiError::insufficient_quota())
    } else {
        let consumer_after = balances.consumer_spendable_micro - calculated.user_deduction_micro;
        let node_before = if balances.consumer_user_id == balances.node_user_id {
            consumer_after
        } else {
            balances.node_spendable_micro as int
        };
        match (
            released_reservation(
                balances.consumer_reserved_micro as int,
                balances.reserved_cost_micro as int,
            ),
            entry(
                balances.consumer_spendable_micro as int,
                -calculated.user_deduction_micro,
            ),
            entry(node_before, calculated.node_quota_micro as int),
            entry(balances.node_contribution_micro as int, contribution),
            entry(balances.reserve_balance_micro as int, calculated.reserve_micro as int),
        ) {
            (Ok(reserved_after), Some(consumer), Some(node), Some(contribution), Some(reserve)) =>
            Ok(
                SettlementPlan {
                    consumer,
                    node,
                    contribution,
                    reserve,
                    contribution_weight_ppm: weight,
                    consumer_reserved_after_micro: reserved_after,
                },
            ),
            _ => Err(ApiError::internal()),
        }
    }
}

/// Works out the ledger entries of a settlement. The deduction must be covered by
/// the reservation and by what the consumer can spend. Where consumer and node are
/// one account, the reward is entered after the deduction.
pub fn plan_settlement(
    calculated: CalculatedSettlement,
    precreate_weight: Option<i32>,
    graph_weight: i32,
    balances: SettlementBalances,
) -> (plan: Result<SettlementPlan, ApiError>)
    requires
        calculated.valid(),
    ensures
        plan == settlement_plan(calculated, precreate_weight, graph_weight, balances),
{
    let created: i32 = match precreate_weight {
        Some(weight) => weight,
        None => 0,
    };
    let weight: i32 = if created <= graph_weight {
        created
    } else {
        graph_weight
    };
    let contribution_micro = arithmetic::checked_i64(
        arithmetic::weighted_ppm(calculated.contribution_points_micro, weight),
    )?;
    if calculated.user_deduction_micro > balances.reserved_cost_micro {
        return Err(ApiError::internal());
    }
    if balances.consumer_spendable_micro < calculated.user_deduction_micro {
        return Err(ApiError::insufficient_quota());
    }
    let consumer_after = arithmetic::add_i64(
        balances.consumer_spendable_micro,
        -calculated.user_deduction_micro,
    )?;
    let consumer_reserved_after_micro = release_reservation(
        balances.consumer_reserved_micro,
        balances.reserved_cost_micro,
    )?;
    let node_before: i64 = if balances.consumer_user_id == balances.node_user_id {
        consumer_after
    } else {
        balances.node_spendable_micro
    };
    let node_after = arithmetic::add_i64(node_before, calculated.node_quota_micro)?;
    let contribution_after = arithmetic::add_i64(
        balances.node_contribution_micro,
        contribution_micro,
    )?;
    let reserve_after = arithmetic::add_i64(
        balances.reserve_balance_micro,
        calculated.reserve_micro,
    )?;
    Ok(
        SettlementPlan {
            consumer: LedgerStep {
                delta_micro: -calculated.user_deduction_micro,
                before_micro: balances.consumer_spendable_micro,
                after_micro: consumer_after,
            },
            node: LedgerStep {
                delta_micro: calculated.node_quota_micro,
                before_micro: node_before,
                after_micro: node_after,
            },
            contribution: LedgerStep {
                delta_micro: contribution_micro,
                before_micro: balances.node_contribution_micro,
                after_micro: contribution_after,
            },
            reserve: LedgerStep {
                delta_micro: calculated.reserve_micro,
                before_micro: balances.reserve_balance_micro,
                after_micro: reserve_after,
            },
            contribution_weight_ppm: weight,
            consumer_reserved_after_micro,
        },
    )
}

/// Every entry of a settlement balances, a consumer who was not in debt is not in
/// debt afterwards, and all that is paid out and put in reserve is entered exactly
/// once: what the three balances gain together is what the settlement rules say.
pub proof fn settlements_balance(
    calculated: CalculatedSettlement,
    precreate_weight: Option<i32>,
    graph_weight: i32,
    balances: SettlementBalances,
)
    requires
        calculated.valid(),
        settlement_plan(calculated, precreate_weight, graph_weight, balances) is Ok,
    ensures
        ({
            let plan = settlement_plan(calculated, precreate_weight, graph_weight, balances)->Ok_0;
            &&& plan.consumer.balanced() && plan.node.balanced() && plan.contribution.balanced()
                && plan.reserve.balanced()
            &&& plan.consumer.after_micro >= 0
            &&& plan.consumer.delta_micro + plan.node.delta_micro + plan.reserve.delta_micro
                == calculated.node_quota_micro + calculated.reserve_micro
                - calculated.user_deduction_micro
            &&& plan.consumer_reserved_after_micro + balances.reserved_cost_micro
                == balances.consumer_reserved_micro
        }),
{
}

/// The anti-abuse weights decide over the contribution alone: the deduction, the
/// reward and the reserve of a settlement are the same for all weights.
pub proof fn weights_touch_only_the_contribution(
    calculated: CalculatedSettlement,
    first_precreate: Option<i32>,
    first_graph: i32,
    second_precreate: Option<i32>,
    second_graph: i32,
    balances: SettlementBalances,
)
    requires
        calculated.valid(),
        settlement_plan(calculated, first_precreate, first_graph, balances) is Ok,
        settlement_plan(calculated, second_precreate, second_graph, balances) is Ok,
    ensures
        ({
            let first = settlement_plan(calculated, first_precreate, first_graph, balances)->Ok_0;
            let second = settlement_plan(
                calculated,
                second_precreate,
                second_graph,
                balances,
            )->Ok_0;
            &&& first.consumer == second.consumer
            &&& first.node == second.node
            &&& first.reserve == second.reserve
            &&& first.consumer_reserved_after_micro == second.consumer_reserved_after_micro
        }),
{
}

/// Without a decision from when the job was created, a settlement adds no
/// contribution, and a weight of at most a million adds no more than the points.
pub proof fn contributions_are_bounded(
    calculated: CalculatedSettlement,
    precreate_weight: Option<i32>,
    graph_weight: i32,
    balances: SettlementBalances,
)
    requires
        calculated.valid(),
        0 <= graph_weight,
        precreate_weight matches Some(weight) ==> 0 <= weight <= 1_000_000,
        settlement_plan(calculated, precreate_weight, graph_weight, balances) is Ok,
    ensures
        ({
            let plan = settlement_plan(calculated, precreate_weight, graph_weight, balances)->Ok_0;
            &&& 0 <= plan.contribution.delta_micro <= calculated.contribution_points_micro
            &&& precreate_weight is None ==> plan.contribution.delta_micro == 0
        }),
{
    let weight = contribution_weight(precreate_weight, graph_weight) as int;
    let points = calculated.contribution_points_micro as int;
    assert(0 <= points * weight <= points * 1_000_000) by (nonlinear_arith)
        requires
            0 <= weight <= 1_000_000,
            0 <= points,
    ;
    if precreate_weight is None {
        assert(points * weight == 0) by (nonlinear_arith)
            requires
                weight == 0,
        ;
    }
}

/// A field of a receipt text: a bar, and the field.
pub open spec fn field(value: Seq<char>) -> Seq<char> {
    seq!['|'] + value
}

/// What a receipt hash is made of, besides the billing contract of the job.
pub struct ReceiptFields {
    pub receipt_id: Uuid,
    pub job_id: Uuid,
    pub consumer_hash: String,
    pub node_quota_hash: String,
    pub contribution_hash: String,
    pub reserve_hash: String,
    pub user_deduction_micro: i64,
    pub node_quota_micro: i64,
    pub contribution_micro: i64,
    pub contribution_weight_ppm: i32,
}

impl ReceiptFields {
    /// The text that is hashed: a label, every field, and the hash of the billing contract,
    /// parted by bars.
    pub open spec fn receipt_text(self, billing_snapshot_hash: Seq<char>) -> Seq<char> {
        "receipt-v2"@ + field(self.receipt_id.hyphenated()) + field(self.job_id.hyphenated())
            + field(self.consumer_hash@) + field(self.node_quota_hash@) + field(
            self.contribution_hash@,
        ) + field(self.reserve_hash@) + field(text::decimal(self.user_deduction_micro as int))
            + field(text::decimal(self.node_quota_micro as int)) + field(
            text::decimal(self.contribution_micro as int),
        ) + field(text::decimal(self.contribution_weight_ppm as int)) + field(
            billing_snapshot_hash,
        )
    }

    fn text(&self, billing_snapshot_hash: &str) -> (text: String)
        ensures
            text@ == self.receipt_text(billing_snapshot_hash@),
    {
        let mut text = String::new();
        text::push_text(&mut text, "receipt-v2");
        push_field(&mut text, self.receipt_id.text().as_str());
        push_field(&mut text, self.job_id.text().as_str());
        push_field(&mut text, self.consumer_hash.as_str());
        push_field(&mut text, self.node_quota_hash.as_str());
        push_field(&mut text, self.contribution_hash.as_str());
        push_field(&mut text, self.reserve_hash.as_str());
        push_number(&mut text, self.user_deduction_micro);
        push_number(&mut text, self.node_quota_micro);
        push_number(&mut text, self.contribution_micro);
        push_number(&mut text, self.contribution_weight_ppm as i64);
        push_field(&mut text, billing_snapshot_hash);
        assert(text@ =~= self.receipt_text(billing_snapshot_hash@));
        text
    }

    /// The hash that a receipt is known by. It binds the whole billing contract that the
    /// job froze; one that has no canonical text is an internal error.
    pub fn settlement_hash(&self, billing: &JobBillingSnapshot) -> (hash: Result<String, ApiError>)
        ensures
            match billing::snapshot_json(*billing) {
                Some(json) => hash matches Ok(hash) && hash@ == billing::sha256_text(
                    self.receipt_text(billing::sha256_text(json)),
                ) && text::is_lower_hex(hash@, 64),
                None => hash == Err::<String, ApiError>(ApiError::internal()),
            },
    {
        let billing_snapshot_hash = billing.canonical_hash()?;
        Ok(sha256_hex(self.text(billing_snapshot_hash.as_str()).as_str()))
    }
}

fn push_field(out: &mut String, value: &str)
    ensures
        final(out)@ == old(out)@ + field(value@),
{
    out.push('|');
    text::push_text(out, value);
    assert(out@ =~= old(out)@ + field(value@));
}

fn push_number(out: &mut String, value: i64)
    ensures
        final(out)@ == old(out)@ + field(text::decimal(value as int)),
{
    out.push('|');
    text::push_decimal(out, value);
    assert(out@ =~= old(out)@ + field(text::decimal(value as int)));
}

/// The ledger line of a settlement that an entry belongs to.
#[derive(Clone, Copy, Debug, PartialEq, Eq, Structural)]
pub enum SettlementLine {
    Consumer,
    NodeQuota,
    Contribution,
    Reserve,
}

impl SettlementLine {
    pub open spec fn label(self) -> Seq<char> {
        match self {
            SettlementLine::Consumer => ":consumer"@,
            SettlementLine::NodeQuota => ":node-quota"@,
            SettlementLine::Contribution => ":contribution"@,
            SettlementLine::Reserve => ":reserve"@,
        }
    }

    /// The key under which the line is entered once and for all.
    pub open spec fn key_of(self, job_id: Uuid) -> Seq<char> {
        "job:"@ + job_id.hyphenated() + self.label()
    }

    pub fn key(self, job_id: Uuid) -> (key: String)
        ensures
            key@ == self.key_of(job_id),
    {
        let mut key = String::new();
        text::push_text(&mut key, "job:");
        text::push_text(&mut key, job_id.text().as_str());
        text::push_text(
            &mut key,
            match self {
                SettlementLine::Consumer => ":consumer",
                SettlementLine::NodeQuota => ":node-quota",
                SettlementLine::Contribution => ":contribution",
                SettlementLine::Reserve => ":reserve",
            },
        );
        assert(key@ =~= self.key_of(job_id));
        key
    }

    /// The type under which the ledgers hold the line.
    pub fn entry_type(self) -> (entry_type: &'static str)
        ensures
            entry_type@ == match self {
                SettlementLine::Consumer => "consumer_deduction"@,
                SettlementLine::NodeQuota => "node_reward"@,
                SettlementLine::Contribution => "node_contribution"@,
                SettlementLine::Reserve => "settlement_inflow"@,
            },
    {
        match self {
            SettlementLine::Consumer => "consumer_deduction",
            SettlementLine::NodeQuota => "node_reward",
            SettlementLine::Contribution => "node_contribution",
            SettlementLine::Reserve => "settlement_inflow",
        }
    }
}

/// A column and its storage version hold the result of a job: that of a Standard job is
/// under seal, that of a Regulated job is opaque already.
pub open spec fn stores_result(
    key: Seq<u8>,
    job_id: Uuid,
    confidentiality: Seq<char>,
    result: Seq<char>,
    column: Seq<char>,
    version: Option<i16>,
) -> bool {
    if confidentiality == "regulated"@ {
        column == result && version is None
    } else {
        &&& confidentiality == "standard"@
        &&& standard_data::stored_value(key, job_id, StorageDirection::Result, column) == Some(
            vstd::utf8::encode_utf8(result),
        )
        &&& version == Some(STORAGE_VERSION)
    }
}

/// The form in which the result of a job is stored, and its storage version. The
/// result of a Standard job is sealed; that of a Regulated job is opaque already.
pub fn protect_result(
    key: &[u8; 32],
    job_id: Uuid,
    confidentiality: &str,
    result: &str,
) -> (stored: Result<(String, Option<i16>), ApiError>)
    ensures
        confidentiality@ == "regulated"@ ==> stored is Ok,
        stored matches Ok((column, version)) ==> stores_result(
            key@,
            job_id,
            confidentiality@,
            result@,
            column@,
            version,
        ),
        confidentiality@ == "standard"@ && !standard_data::storable(
            vstd::utf8::encode_utf8(result@),
        ) ==> stored is Err,
        confidentiality@ != "standard"@ && confidentiality@ != "regulated"@ ==> stored is Err,
        stored matches Err(refused) ==> refused == ApiError::internal(),
{
    proof {
        reveal_strlit("standard");
        reveal_strlit("regulated");
        assert("standard"@.len() != "regulated"@.len());
    }
    if text::same_text(confidentiality, "standard") {
        match standard_data::encrypt_for_storage(
            key,
            job_id,
            StorageDirection::Result,
            result.as_bytes(),
        ) {
            Ok(envelope) => Ok((envelope, Some(STORAGE_VERSION))),
            Err(_) => Err(ApiError::internal()),
        }
    } else if text::same_text(confidentiality, "regulated") {
        Ok((result.to_owned(), None))
    } else {
        Err(ApiError::internal())
    }
}

/// What a settlement leaves of a job: it succeeded, with this result, this usage and this
/// telemetry, and its lease is still known.
pub open spec fn records_settlement(
    after: SubmissionRow,
    before: SubmissionRow,
    key: Seq<u8>,
    command: CompleteJob,
    telemetry_fingerprint: Seq<char>,
) -> bool {
    &&& after.status@ == "succeeded"@
    &&& after.leased_to_node_id == before.leased_to_node_id
    &&& after.node_user_id == before.node_user_id
    &&& after.node_device_key_id == before.node_device_key_id
    &&& after.claim_device_key_id == before.claim_device_key_id
    &&& after.claim_device_binding_version == before.claim_device_binding_version
    &&& after.confidentiality@ == before.confidentiality@
    &&& text::holds(after.result_idempotency_key, command.idempotency_key@)
    &&& after.result_ciphertext matches Some(column) && stores_result(
        key,
        command.job_id,
        before.confidentiality@,
        command.result_ciphertext@,
        column@,
        after.standard_result_storage_version,
    )
    &&& after.actual_input_tokens == Some(command.actual_input_tokens)
    &&& after.actual_output_tokens == Some(command.actual_output_tokens)
    &&& text::holds(after.result_telemetry_fingerprint, telemetry_fingerprint)
}

/// Two submissions are the same in every part that a settlement keeps.
pub open spec fn same_submission(
    first: CompleteJob,
    first_fingerprint: Seq<char>,
    second: CompleteJob,
    second_fingerprint: Seq<char>,
) -> bool {
    &&& second.idempotency_key@ == first.idempotency_key@
    &&& second.result_ciphertext@ == first.result_ciphertext@
    &&& second.actual_input_tokens == first.actual_input_tokens
    &&& second.actual_output_tokens == first.actual_output_tokens
    &&& second_fingerprint == first_fingerprint
}

/// A job is settled once. What a settlement stored answers the same submission of its
/// device with a replay, and any other submission of that device with a conflict, whatever
/// happened since; neither is settled.
pub proof fn settlements_are_told_again(
    key: Seq<u8>,
    first: CompleteJob,
    first_fingerprint: Seq<char>,
    before: SubmissionRow,
    first_facts: SettlementFacts,
    after: SubmissionRow,
    second: CompleteJob,
    second_fingerprint: Seq<char>,
    second_facts: SettlementFacts,
    binding_version: i32,
)
    requires
        completion(key, first, Some(before), first_fingerprint, binding_version, first_facts) matches Ok(
            Completion::New(SettlementStep::Settle(_)),
        ),
        records_settlement(after, before, key, first, first_fingerprint),
        second.job_id == first.job_id,
        second.node_id == first.node_id,
        second.worker_user_id == first.worker_user_id,
        second.claim_device_key_id == first.claim_device_key_id,
        usage_refusal(
            second.actual_input_tokens as int,
            second.actual_output_tokens as int,
        ) is None,
    ensures
        completion(key, second, Some(after), second_fingerprint, binding_version, second_facts)
            == if same_submission(first, first_fingerprint, second, second_fingerprint) {
            Ok::<Completion, ApiError>(Completion::Replay)
        } else {
            Err::<Completion, ApiError>(
                ApiError::conflict(
                    "idempotency_binding_mismatch",
                    "结果幂等键已绑定到不同节点、密文、Token 使用量或任务遥测",
                ),
            )
        },
{
    reveal_strlit("standard");
    reveal_strlit("regulated");
    assert("standard"@.len() != "regulated"@.len());
    vstd::utf8::encode_utf8_decode_utf8(first.result_ciphertext@);
    vstd::utf8::encode_utf8_decode_utf8(second.result_ciphertext@);
}

/// What the telemetry of a job was judged to show.
#[derive(Clone, Copy, Debug, PartialEq, Eq, Structural)]
pub enum ExecutionTelemetryVerdict {
    InsufficientEvidence,
    NoAnomalyObserved,
    Warning,
    Critical,
}

impl ExecutionTelemetryVerdict {
    pub open spec fn name(self) -> Seq<char> {
        match self {
            ExecutionTelemetryVerdict::InsufficientEvidence => "insufficient_evidence"@,
            ExecutionTelemetryVerdict::NoAnomalyObserved => "no_anomaly_observed"@,
            ExecutionTelemetryVerdict::Warning => "warning"@,
            ExecutionTelemetryVerdict::Critical => "critical"@,
        }
    }
}

impl ExecutionTelemetryVerdict {
    /// The name under which the database holds the verdict.
    pub fn db_name(self) -> (name: &'static str)
        ensures
            name@ == self.name(),
    {
        match self {
            ExecutionTelemetryVerdict::InsufficientEvidence => "insufficient_evidence",
            ExecutionTelemetryVerdict::NoAnomalyObserved => "no_anomaly_observed",
            ExecutionTelemetryVerdict::Warning => "warning",
            ExecutionTelemetryVerdict::Critical => "critical",
        }
    }
}

/// Different verdicts have different names, so a stored verdict is read back as the one
/// that was stored.
pub proof fn verdicts_are_told_apart(
    first: ExecutionTelemetryVerdict,
    second: ExecutionTelemetryVerdict,
)
    requires
        first.name() == second.name(),
    ensures
        first == second,
{
    reveal_strlit("insufficient_evidence");
    reveal_strlit("no_anomaly_observed");
    reveal_strlit("warning");
    reveal_strlit("critical");
    assert("insufficient_evidence"@[0] == 'i');
    assert("no_anomaly_observed"@[0] == 'n');
    assert("warning"@[0] == 'w');
    assert("critical"@[0] == 'c');
}

/// Reads the name of a verdict.
pub fn parse_telemetry_verdict(value: &str) -> (verdict: Result<
    ExecutionTelemetryVerdict,
    ApiError,
>)
    ensures
        verdict matches Ok(verdict) ==> verdict.name() == value@,
        verdict matches Err(refused) ==> refused == ApiError::internal() && forall|
            verdict: ExecutionTelemetryVerdict,
        |
            #[trigger] verdict.name() != value@,
{
    if text::same_text(value, "insufficient_evidence") {
        Ok(ExecutionTelemetryVerdict::InsufficientEvidence)
    } else if text::same_text(value, "no_anomaly_observed") {
        Ok(ExecutionTelemetryVerdict::NoAnomalyObserved)
    } else if text::same_text(value, "warning") {
        Ok(ExecutionTelemetryVerdict::Warning)
    } else if text::same_text(value, "critical") {
        Ok(ExecutionTelemetryVerdict::Critical)
    } else {
        Err(ApiError::internal())
    }
}

/// A settlement as it is reported.
pub struct SettlementOutcome {
    pub receipt_id: Uuid,
    pub job_id: Uuid,
    pub base_cost_micro: i64,
    pub user_deduction_micro: i64,
    pub node_quota_micro: i64,
    pub contribution_micro: i64,
    pub contribution_weight_ppm: i32,
    pub reserve_micro: i64,
    pub settlement_hash: String,
    pub telemetry_verdict: ExecutionTelemetryVerdict,
    pub telemetry_alert_count: u32,
    pub telemetry_evidence_kind: String,
    pub idempotent_replay: bool,
}

/// A stored receipt, with what the database holds of its telemetry.
pub struct ReceiptRow {
    pub receipt_id: Uuid,
    pub base_cost_micro: i64,
    pub user_deduction_micro: i64,
    pub node_quota_micro: i64,
    pub contribution_micro: i64,
    pub contribution_weight_ppm: i32,
    pub reserve_micro: i64,
    pub settlement_hash: String,
    pub verdict: String,
    pub evidence_kind: String,
    pub telemetry_alert_count: i64,
}

/// What the telemetry of a result was concluded to show.
pub struct TelemetryConclusion {
    pub verdict: ExecutionTelemetryVerdict,
    pub alert_count: u32,
    pub evidence_kind: String,
}

/// A receipt holds what a settlement came to.
pub open spec fn records_receipt(
    row: ReceiptRow,
    base_cost_micro: i64,
    calculated: CalculatedSettlement,
    plan: SettlementPlan,
    telemetry: TelemetryConclusion,
) -> bool {
    &&& row.base_cost_micro == base_cost_micro
    &&& row.user_deduction_micro == calculated.user_deduction_micro
    &&& row.node_quota_micro == calculated.node_quota_micro
    &&& row.contribution_micro == plan.contribution.delta_micro
    &&& row.contribution_weight_ppm == plan.contribution_weight_ppm
    &&& row.reserve_micro == calculated.reserve_micro
    &&& row.verdict@ == telemetry.verdict.name()
    &&& row.evidence_kind == telemetry.evidence_kind
    &&& row.telemetry_alert_count == telemetry.alert_count
}

/// The receipt of a settlement.
pub fn receipt_of(
    receipt_id: Uuid,
    settlement_hash: String,
    base_cost_micro: i64,
    calculated: CalculatedSettlement,
    plan: SettlementPlan,
    telemetry: TelemetryConclusion,
) -> (row: ReceiptRow)
    ensures
        row.receipt_id == receipt_id,
        row.settlement_hash == settlement_hash,
        records_receipt(row, base_cost_micro, calculated, plan, telemetry),
{
    ReceiptRow {
        receipt_id,
        base_cost_micro,
        user_deduction_micro: calculated.user_deduction_micro,
        node_quota_micro: calculated.node_quota_micro,
        contribution_micro: plan.contribution.delta_micro,
        contribution_weight_ppm: plan.contribution_weight_ppm,
        reserve_micro: calculated.reserve_micro,
        settlement_hash,
        verdict: String::from_str(telemetry.verdict.db_name()),
        evidence_kind: telemetry.evidence_kind,
        telemetry_alert_count: telemetry.alert_count as i64,
    }
}

/// A receipt that says something of its telemetry that can be told.
pub open spec fn can_be_told(row: ReceiptRow) -> bool {
    0 <= row.telemetry_alert_count <= u32::MAX && exists|verdict: ExecutionTelemetryVerdict|
        #[trigger] verdict.name() == row.verdict@
}

/// The report tells of this receipt.
pub open spec fn tells_receipt(
    outcome: SettlementOutcome,
    row: ReceiptRow,
    job_id: Uuid,
    idempotent_replay: bool,
) -> bool {
    &&& outcome.receipt_id == row.receipt_id
    &&& outcome.job_id == job_id
    &&& outcome.base_cost_micro == row.base_cost_micro
    &&& outcome.user_deduction_micro == row.user_deduction_micro
    &&& outcome.node_quota_micro == row.node_quota_micro
    &&& outcome.contribution_micro == row.contribution_micro
    &&& outcome.contribution_weight_ppm == row.contribution_weight_ppm
    &&& outcome.reserve_micro == row.reserve_micro
    &&& outcome.settlement_hash == row.settlement_hash
    &&& outcome.telemetry_verdict.name() == row.verdict@
    &&& outcome.telemetry_alert_count == row.telemetry_alert_count
    &&& outcome.telemetry_evidence_kind == row.evidence_kind
    &&& outcome.idempotent_replay == idempotent_replay
}

/// Reports a stored settlement. A verdict that has no name, or a count of alerts
/// that is no `u32`, is an internal error.
pub fn load_outcome(row: ReceiptRow, job_id: Uuid, idempotent_replay: bool) -> (loaded: Result<
    SettlementOutcome,
    ApiError,
>)
    ensures
        loaded is Ok <==> can_be_told(row),
        loaded matches Err(refused) ==> refused == ApiError::internal(),
        loaded matches Ok(outcome) ==> tells_receipt(outcome, row, job_id, idempotent_replay),
{
    let telemetry_verdict = parse_telemetry_verdict(row.verdict.as_str())?;
    if row.telemetry_alert_count < 0 || row.telemetry_alert_count > u32::MAX as i64 {
        return Err(ApiError::internal());
    }
    Ok(
        SettlementOutcome {
            receipt_id: row.receipt_id,
            job_id,
            base_cost_micro: row.base_cost_micro,
            user_deduction_micro: row.user_deduction_micro,
            node_quota_micro: row.node_quota_micro,
            contribution_micro: row.contribution_micro,
            contribution_weight_ppm: row.contribution_weight_ppm,
            reserve_micro: row.reserve_micro,
            settlement_hash: row.settlement_hash,
            telemetry_verdict,
            telemetry_alert_count: row.telemetry_alert_count as u32,
            telemetry_evidence_kind: row.evidence_kind,
            idempotent_replay,
        },
    )
}

/// The receipt of a settlement can always be told, and is told with the same identifier,
/// amounts, hash and telemetry every time; only that it is told again differs.
pub proof fn receipts_are_told_alike(
    row: ReceiptRow,
    base_cost_micro: i64,
    calculated: CalculatedSettlement,
    plan: SettlementPlan,
    telemetry: TelemetryConclusion,
    job_id: Uuid,
    first: SettlementOutcome,
    again: SettlementOutcome,
)
    requires
        records_receipt(row, base_cost_micro, calculated, plan, telemetry),
        tells_receipt(first, row, job_id, false),
        tells_receipt(again, row, job_id, true),
    ensures
        can_be_told(row),
        again == (SettlementOutcome { idempotent_replay: true, ..first }),
        first.telemetry_verdict == telemetry.verdict,
        first.user_deduction_micro == calculated.user_deduction_micro,
        first.contribution_micro == plan.contribution.delta_micro,
{
    assert(telemetry.verdict.name() == row.verdict@);
    verdicts_are_told_apart(first.telemetry_verdict, telemetry.verdict);
    verdicts_are_told_apart(again.telemetry_verdict, telemetry.verdict);
}

/// The accounts that a settlement locks: each of the two once.
pub fn accounts_to_lock(first: Uuid, second: Uuid) -> (ids: Vec<Uuid>)
    ensures
        ids@ == if first == second {
            seq![first]
        } else {
            seq![first, second]
        },
{
    let mut ids: Vec<Uuid> = Vec::new();
    ids.push(first);
    if first != second {
        ids.push(second);
    }
    assert(ids@ =~= if first == second {
        seq![first]
    } else {
        seq![first, second]
    });
    ids
}

/// All accounts that were to be locked exist.
pub fn check_locked_accounts(locked: usize, wanted: usize) -> (checked: Result<(), ApiError>)
    ensures
        checked == if locked == wanted {
            Ok::<(), ApiError>(())
        } else {
            Err::<(), ApiError>(ApiError::internal())
        },
{
    if locked != wanted {
        return Err(ApiError::internal());
    }
    Ok(())
}

/// A failure of the settlement rules is an internal error.
#[verifier::allow_in_spec]
pub fn map_accounting_error() -> ApiError
    returns
        ApiError::internal(),
{
    ApiError::internal()
}

/// A failure of the anti-abuse state at settlement time is an internal error.
#[verifier::allow_in_spec]
pub fn map_anti_abuse_error() -> ApiError
    returns
        ApiError::internal(),
{
    ApiError::internal()
}

/// What is reserved for a request at most: what the settlement rules deduct for the base
/// of its reservation in the highest tier. `deduction` is what they make of that base;
/// `None` stands for a base that they refuse.
pub fn maximum_reservation_micro(
    estimated_input_tokens: i32,
    max_output_tokens: i32,
    base_cost_per_1k_micro: i64,
    deduction: Option<i64>,
) -> (reservation: Result<i64, ApiError>)
    ensures
        reservation == match (
            billing::reservation_base(
                estimated_input_tokens as int,
                max_output_tokens as int,
                base_cost_per_1k_micro as int,
            ),
            deduction,
        ) {
            (Err(refused), _) => Err::<i64, ApiError>(refused),
            (Ok(_), Some(deduction)) => Ok::<i64, ApiError>(deduction),
            (Ok(_), None) => Err::<i64, ApiError>(map_accounting_error()),
        },
{
    billing::maximum_reservation_base_micro(
        estimated_input_tokens,
        max_output_tokens,
        base_cost_per_1k_micro,
    )?;
    match deduction {
        Some(deduction) => Ok(deduction),
        None => Err(map_accounting_error()),
    }
}

/// The weight of a contribution is the smaller of the two decisions, and the contribution
/// is the points under that weight, rounded towards zero. Where nothing was decided when
/// the job was created, that decision counts as zero.
pub proof fn contributions_take_the_smaller_decision(
    calculated: CalculatedSettlement,
    precreate_weight: Option<i32>,
    graph_weight: i32,
    balances: SettlementBalances,
    plan: SettlementPlan,
)
    requires
        calculated.valid(),
        settlement_plan(calculated, precreate_weight, graph_weight, balances) == Ok::<
            SettlementPlan,
            ApiError,
        >(plan),
    ensures
        plan.contribution_weight_ppm <= graph_weight,
        precreate_weight matches Some(weight) ==> plan.contribution_weight_ppm <= weight,
        precreate_weight is None ==> plan.contribution_weight_ppm <= 0,
        plan.contribution_weight_ppm == graph_weight || precreate_weight == Some(
            plan.contribution_weight_ppm,
        ) || (precreate_weight is None && plan.contribution_weight_ppm == 0),
        plan.contribution_weight_ppm >= 0 ==> 0 <= calculated.contribution_points_micro
            * plan.contribution_weight_ppm - 1_000_000 * plan.contribution.delta_micro < 1_000_000,
        plan.contribution_weight_ppm < 0 ==> -1_000_000 < calculated.contribution_points_micro
            * plan.contribution_weight_ppm - 1_000_000 * plan.contribution.delta_micro <= 0,
        plan.contribution.before_micro == balances.node_contribution_micro,
        plan.contribution.after_micro == balances.node_contribution_micro
            + plan.contribution.delta_micro,
{
    let points = calculated.contribution_points_micro as int;
    let weight = plan.contribution_weight_ppm as int;
    if weight >= 0 {
        assert(points * weight >= 0) by (nonlinear_arith)
            requires
                points >= 0,
                weight >= 0,
        ;
    } else {
        assert(points * weight <= 0) by (nonlinear_arith)
            requires
                points >= 0,
                weight < 0,
        ;
    }
}

/// Who pays and who is paid: the consumer pays the deduction out of what can be spent, the
/// node gets its quota and the reserve its part, each on top of what was there. A node of
/// the consumer's own account is paid after the deduction. The whole reservation of the job
/// is given back, whatever the deduction is.
pub proof fn settlements_pay_what_was_calculated(
    calculated: CalculatedSettlement,
    precreate_weight: Option<i32>,
    graph_weight: i32,
    balances: SettlementBalances,
    plan: SettlementPlan,
)
    requires
        calculated.valid(),
        settlement_plan(calculated, precreate_weight, graph_weight, balances) == Ok::<
            SettlementPlan,
            ApiError,
        >(plan),
    ensures
        plan.consumer.delta_micro == -calculated.user_deduction_micro,
        plan.consumer.before_micro == balances.consumer_spendable_micro,
        plan.consumer.after_micro == balances.consumer_spendable_micro
            - calculated.user_deduction_micro,
        plan.node.delta_micro == calculated.node_quota_micro,
        balances.consumer_user_id == balances.node_user_id ==> plan.node.before_micro
            == balances.consumer_spendable_micro - calculated.user_deduction_micro,
        balances.consumer_user_id != balances.node_user_id ==> plan.node.before_micro
            == balances.node_spendable_micro,
        plan.node.after_micro == plan.node.before_micro + calculated.node_quota_micro,
        plan.reserve.delta_micro == calculated.reserve_micro,
        plan.reserve.before_micro == balances.reserve_balance_micro,
        plan.reserve.after_micro == balances.reserve_balance_micro + calculated.reserve_micro,
        plan.consumer_reserved_after_micro == balances.consumer_reserved_micro
            - balances.reserved_cost_micro,
        calculated.user_deduction_micro <= balances.reserved_cost_micro,
        calculated.user_deduction_micro <= balances.consumer_spendable_micro,
        balances.reserved_cost_micro <= balances.consumer_reserved_micro,
{
}

/// A settlement that is covered is made: where the deduction fits into the reservation and
/// into what can be spent, the account holds the reservation, and every balance fits. What
/// the consumer cannot spend is told as a lack of quota.
pub proof fn covered_settlements_are_made(
    calculated: CalculatedSettlement,
    precreate_weight: Option<i32>,
    graph_weight: i32,
    balances: SettlementBalances,
)
    requires
        calculated.valid(),
        0 <= graph_weight <= 1_000_000,
        precreate_weight matches Some(weight) ==> 0 <= weight <= 1_000_000,
        calculated.user_deduction_micro <= balances.reserved_cost_micro,
    ensures
        balances.consumer_spendable_micro < calculated.user_deduction_micro ==> settlement_plan(
            calculated,
            precreate_weight,
            graph_weight,
            balances,
        ) == Err::<SettlementPlan, ApiError>(ApiError::InsufficientQuota),
        balances.consumer_spendable_micro >= calculated.user_deduction_micro
            && balances.consumer_reserved_micro >= balances.reserved_cost_micro
            && balances.consumer_spendable_micro + calculated.node_quota_micro <= i64::MAX
            && balances.node_spendable_micro + calculated.node_quota_micro <= i64::MAX
            && balances.node_contribution_micro + calculated.contribution_points_micro <= i64::MAX
            && balances.reserve_balance_micro + calculated.reserve_micro <= i64::MAX
            ==> settlement_plan(calculated, precreate_weight, graph_weight, balances) is Ok,
{
    let weight = contribution_weight(precreate_weight, graph_weight) as int;
    let points = calculated.contribution_points_micro as int;
    assert(0 <= points * weight <= points * 1_000_000) by (nonlinear_arith)
        requires
            0 <= weight <= 1_000_000,
            0 <= points,
    ;
}

/// A result is settled only on a lease that its own device holds and that is alive, for a
/// usage that is within what was authorised, at the base cost that the job froze, and for a
/// Regulated job only if its hardware is still trusted and the result is bound to the job.
pub proof fn settled_results_are_entitled(
    key: Seq<u8>,
    command: CompleteJob,
    row: SubmissionRow,
    telemetry_fingerprint: Seq<char>,
    binding_version: i32,
    facts: SettlementFacts,
    basis: SettlementBasis,
)
    requires
        completion(key, command, Some(row), telemetry_fingerprint, binding_version, facts) == Ok::<
            Completion,
            ApiError,
        >(Completion::New(SettlementStep::Settle(basis))),
    ensures
        command.actual_input_tokens >= 0,
        command.actual_output_tokens >= 0,
        command.actual_input_tokens + command.actual_output_tokens > 0,
        row.status@ == "leased"@,
        row.leased_to_node_id == Some(command.node_id),
        row.node_user_id == command.worker_user_id,
        row.node_device_key_id == Some(command.claim_device_key_id),
        row.claim_device_key_id == Some(command.claim_device_key_id),
        row.claim_device_binding_version == Some(binding_version),
        facts.lease_expires_at is Some && facts.lease_expires_at->0 > facts.now,
        facts.billing.contract_version is Some && facts.billing.contract_version->0@
            == "server_reference_upper_bound_v1"@,
        facts.billing.authorized_input_tokens == Some(facts.estimated_input_tokens as i64),
        facts.billing.authorized_max_output_tokens == Some(facts.max_output_tokens as i64),
        command.actual_input_tokens <= facts.estimated_input_tokens,
        command.actual_output_tokens <= facts.max_output_tokens,
        facts.billing.base_cost_micro == Some(basis.base_cost_micro),
        facts.billing.billable_tokens is Some && facts.billing.token_cost_micro is Some
            && facts.billing.gpu_cost_micro is Some && facts.billing.vram_cost_micro is Some,
        facts.quote is Some && facts.quote->0.base_cost_micro == basis.base_cost_micro
            && facts.quote->0.billable_tokens == facts.billing.billable_tokens->0
            && facts.quote->0.token_cost_micro == facts.billing.token_cost_micro->0
            && facts.quote->0.gpu_cost_micro == facts.billing.gpu_cost_micro->0
            && facts.quote->0.vram_cost_micro == facts.billing.vram_cost_micro->0
            && facts.billing.reference_gpu_time_us == Some(facts.quote->0.reference_gpu_time_us)
            && facts.billing.reference_vram_mib_microseconds == Some(
            facts.quote->0.reference_vram_mib_microseconds,
        ),
        row.confidentiality@ == "regulated"@ ==> facts.regulated_lease_valid && (
        facts.result_envelope matches Ok(envelope) && envelope.is_result
            && facts.regulated_binding.route_id == Some(envelope.route_id)
            && facts.regulated_binding.report_id == Some(envelope.report_id)
            && facts.regulated_binding.model_instance_id == Some(envelope.model_instance_id) && (
        facts.regulated_binding.tee_public_key matches Some(public_key) && public_key@
            == envelope.sender_public_key@)),
        basis.performance_tier == PerformanceTier::High <==> facts.tier@ == "high"@,
        basis.performance_tier == PerformanceTier::Medium <==> facts.tier@ == "medium"@,
        basis.performance_tier == PerformanceTier::Low <==> facts.tier@ == "low"@,
        basis.trust_class == TrustClass::Enhanced <==> facts.trust_level@ == "enhanced"@,
        basis.trust_class == TrustClass::Standard <==> facts.trust_level@ == "standard"@
            || facts.trust_level@ == "standard-limited"@,
        basis.trust_class == TrustClass::Unverified <==> facts.trust_level@ == "unverified"@
            || facts.trust_level@ == "experimental"@,
{
    lemma_settlement_names();
}

proof fn lemma_settlement_names()
    ensures
        "leased"@ != "succeeded"@,
        "high"@ != "medium"@ && "high"@ != "low"@ && "medium"@ != "low"@,
        "enhanced"@ != "standard"@ && "enhanced"@ != "standard-limited"@ && "enhanced"@
            != "unverified"@ && "enhanced"@ != "experimental"@,
        "standard"@ != "unverified"@ && "standard"@ != "experimental"@ && "standard-limited"@
            != "unverified"@ && "standard-limited"@ != "experimental"@,
        "standard"@ != "regulated"@,
{
    reveal_strlit("leased");
    reveal_strlit("succeeded");
    reveal_strlit("high");
    reveal_strlit("medium");
    reveal_strlit("low");
    reveal_strlit("enhanced");
    reveal_strlit("standard");
    reveal_strlit("standard-limited");
    reveal_strlit("unverified");
    reveal_strlit("experimental");
    reveal_strlit("regulated");
    assert("leased"@[0] == 'l' && "succeeded"@[0] == 's');
    assert("high"@[0] == 'h' && "medium"@[0] == 'm' && "low"@[0] == 'l');
    assert("enhanced"@[1] == 'n' && "experimental"@[1] == 'x');
    assert("enhanced"@[0] == 'e' && "standard"@[0] == 's' && "standard-limited"@[0] == 's'
        && "unverified"@[0] == 'u' && "experimental"@[0] == 'e' && "regulated"@[0] == 'r');
}

/// A result that is entitled to it is settled, and at what the job froze: a Standard result
/// from the device that leases the job, in time, within what was authorised, on a contract
/// that is whole and repeats its quote.
pub proof fn entitled_results_are_settled(
    key: Seq<u8>,
    command: CompleteJob,
    row: SubmissionRow,
    telemetry_fingerprint: Seq<char>,
    binding_version: i32,
    facts: SettlementFacts,
    frozen: JobBillingSnapshot,
)
    requires
        command.actual_input_tokens >= 0,
        command.actual_output_tokens >= 0,
        command.actual_input_tokens + command.actual_output_tokens > 0,
        row.status@ == "leased"@,
        row.leased_to_node_id == Some(command.node_id),
        row.node_user_id == command.worker_user_id,
        row.node_device_key_id == Some(command.claim_device_key_id),
        row.claim_device_key_id == Some(command.claim_device_key_id),
        row.claim_device_binding_version == Some(binding_version),
        row.confidentiality@ == "standard"@ || (row.confidentiality@ == "regulated"@
            && facts.regulated_lease_valid && (facts.result_envelope matches Ok(envelope)
            && envelope.is_result && facts.regulated_binding.route_id == Some(envelope.route_id)
            && facts.regulated_binding.report_id == Some(envelope.report_id)
            && facts.regulated_binding.model_instance_id == Some(envelope.model_instance_id) && (
        facts.regulated_binding.tee_public_key matches Some(public_key) && public_key@
            == envelope.sender_public_key@))),
        facts.lease_expires_at matches Some(expiry) && expiry > facts.now,
        facts.billing == billing::frozen_columns(frozen),
        frozen.contract_version@ == "server_reference_upper_bound_v1"@,
        frozen.authorized_input_tokens == facts.estimated_input_tokens,
        frozen.authorized_max_output_tokens == facts.max_output_tokens,
        command.actual_input_tokens <= facts.estimated_input_tokens,
        command.actual_output_tokens <= facts.max_output_tokens,
        facts.quote matches Some(quote) && {
            &&& quote.billable_tokens == frozen.billable_tokens
            &&& quote.reference_gpu_time_us == frozen.reference_gpu_time_us
            &&& quote.reference_vram_mib_microseconds == frozen.reference_vram_mib_microseconds
            &&& quote.token_cost_micro == frozen.token_cost_micro
            &&& quote.gpu_cost_micro == frozen.gpu_cost_micro
            &&& quote.vram_cost_micro == frozen.vram_cost_micro
            &&& quote.base_cost_micro == frozen.base_cost_micro
        },
        facts.tier@ == "high"@ || facts.tier@ == "medium"@ || facts.tier@ == "low"@,
        facts.trust_level@ == "enhanced"@ || facts.trust_level@ == "standard"@
            || facts.trust_level@ == "standard-limited"@ || facts.trust_level@ == "unverified"@
            || facts.trust_level@ == "experimental"@,
    ensures
        completion(key, command, Some(row), telemetry_fingerprint, binding_version, facts) matches Ok(
            Completion::New(SettlementStep::Settle(basis)),
        ) && basis.base_cost_micro == frozen.base_cost_micro && basis.billing == frozen,
{
    lemma_settlement_names();
}

/// A report of usage has no negative part and is not nothing; a submission that reports
/// otherwise is never taken, whoever hands it in.
pub proof fn empty_usage_is_never_taken(
    key: Seq<u8>,
    command: CompleteJob,
    row: Option<SubmissionRow>,
    telemetry_fingerprint: Seq<char>,
    binding_version: i32,
    facts: SettlementFacts,
)
    requires
        command.actual_input_tokens < 0 || command.actual_output_tokens < 0 || (
        command.actual_input_tokens == 0 && command.actual_output_tokens == 0),
    ensures
        completion(key, command, row, telemetry_fingerprint, binding_version, facts) is Err,
{
}

/// A reservation is released in whole or not at all: what is left is what was there without
/// it, and an account that does not hold it is left alone.
pub proof fn releases_are_whole(reserved_micro: i64, reservation_micro: i64)
    requires
        0 <= reservation_micro,
    ensures
        reserved_micro >= reservation_micro ==> (released_reservation(
            reserved_micro as int,
            reservation_micro as int,
        ) matches Ok(left) && left == reserved_micro - reservation_micro),
        reserved_micro < reservation_micro ==> released_reservation(
            reserved_micro as int,
            reservation_micro as int,
        ) == Err::<i64, ApiError>(ApiError::Internal),
{
}

/// What a receipt is known by: its mark and, each behind a bar, the receipt and the job, the
/// hashes of its four ledger entries, what was deducted, paid and contributed with its weight, and
/// the hash of the billing contract.
pub proof fn receipts_name_everything_that_was_settled(
    fields: ReceiptFields,
    billing_snapshot_hash: Seq<char>,
)
    ensures
        fields.receipt_text(billing_snapshot_hash) == "receipt-v2"@ + "|"@
            + fields.receipt_id.hyphenated() + "|"@ + fields.job_id.hyphenated() + "|"@
            + fields.consumer_hash@ + "|"@ + fields.node_quota_hash@ + "|"@
            + fields.contribution_hash@ + "|"@ + fields.reserve_hash@ + "|"@ + text::decimal(
            fields.user_deduction_micro as int,
        ) + "|"@ + text::decimal(fields.node_quota_micro as int) + "|"@ + text::decimal(
            fields.contribution_micro as int,
        ) + "|"@ + text::decimal(fields.contribution_weight_ppm as int) + "|"@
            + billing_snapshot_hash,
{
    reveal_strlit("|");
    assert("|"@ =~= seq!['|']);
    assert(fields.receipt_text(billing_snapshot_hash) =~= "receipt-v2"@ + "|"@
        + fields.receipt_id.hyphenated() + "|"@ + fields.job_id.hyphenated() + "|"@
        + fields.consumer_hash@ + "|"@ + fields.node_quota_hash@ + "|"@ + fields.contribution_hash@
        + "|"@ + fields.reserve_hash@ + "|"@ + text::decimal(fields.user_deduction_micro as int)
        + "|"@ + text::decimal(fields.node_quota_micro as int) + "|"@ + text::decimal(
        fields.contribution_micro as int,
    ) + "|"@ + text::decimal(fields.contribution_weight_ppm as int) + "|"@
        + billing_snapshot_hash);
}

/// Each ledger line of a job is entered under a key of its own.
pub proof fn lines_are_entered_under_their_own_key(job_id: Uuid)
    ensures
        SettlementLine::Consumer.key_of(job_id) == "job:"@ + job_id.hyphenated() + ":consumer"@,
        SettlementLine::NodeQuota.key_of(job_id) == "job:"@ + job_id.hyphenated() + ":node-quota"@,
        SettlementLine::Contribution.key_of(job_id) == "job:"@ + job_id.hyphenated()
            + ":contribution"@,
        SettlementLine::Reserve.key_of(job_id) == "job:"@ + job_id.hyphenated() + ":reserve"@,
{
}

/// The result of a Standard job is stored under seal, and that of a Regulated job as it came.
pub proof fn results_are_stored_by_their_confidentiality(
    key: Seq<u8>,
    job_id: Uuid,
    confidentiality: Seq<char>,
    result: Seq<char>,
    column: Seq<char>,
    version: Option<i16>,
)
    ensures
        confidentiality == "regulated"@ ==> (stores_result(
            key,
            job_id,
            confidentiality,
            result,
            column,
            version,
        ) <==> column == result && version is None),
        confidentiality == "standard"@ ==> (stores_result(
            key,
            job_id,
            confidentiality,
            result,
            column,
            version,
        ) <==> version == Some(1i16) && standard_data::stored_value(
            key,
            job_id,
            StorageDirection::Result,
            column,
        ) == Some(vstd::utf8::encode_utf8(result))),
        confidentiality != "regulated"@ && confidentiality != "standard"@ ==> !stores_result(
            key,
            job_id,
            confidentiality,
            result,
            column,
            version,
        ),
{
    reveal_strlit("standard");
    reveal_strlit("regulated");
    assert("standard"@[0] == 's' && "regulated"@[0] == 'r');
}

/// A receipt tells what was settled: the cost, what was deducted, paid, kept and contributed with
/// its weight, and what the measurements came to.
pub proof fn receipts_tell_what_was_settled(
    row: ReceiptRow,
    base_cost_micro: i64,
    calculated: CalculatedSettlement,
    plan: SettlementPlan,
    telemetry: TelemetryConclusion,
)
    requires
        records_receipt(row, base_cost_micro, calculated, plan, telemetry),
    ensures
        row.base_cost_micro == base_cost_micro,
        row.user_deduction_micro == calculated.user_deduction_micro,
        row.node_quota_micro == calculated.node_quota_micro,
        row.reserve_micro == calculated.reserve_micro,
        row.contribution_micro == plan.contribution.delta_micro,
        row.contribution_weight_ppm == plan.contribution_weight_ppm,
        row.verdict@ == telemetry.verdict.name(),
        row.evidence_kind == telemetry.evidence_kind,
        row.telemetry_alert_count == telemetry.alert_count,
{
}

/// A calculation is usable exactly if none of its amounts is below zero.
pub proof fn usable_calculations_are_not_below_zero(calculated: CalculatedSettlement)
    ensures
        calculated.valid() <==> calculated.user_deduction_micro > -1 && calculated.node_quota_micro
            > -1 && calculated.contribution_points_micro > -1 && calculated.reserve_micro > -1,
{
}

/// A result is refused for what is wrong with it first: its usage, a job that is not there, who
/// hands it in, or a job that is not leased.
pub proof fn results_are_refused_in_order(
    key: Seq<u8>,
    command: CompleteJob,
    row: Option<SubmissionRow>,
    telemetry_fingerprint: Seq<char>,
    binding_version: i32,
    facts: SettlementFacts,
)
    ensures
        ({
            let answer = completion(
                key,
                command,
                row,
                telemetry_fingerprint,
                binding_version,
                facts,
            );
            let input = command.actual_input_tokens;
            let output = command.actual_output_tokens;
            let counted = 0 <= input && 0 <= output && (input > 0 || output > 0);
            &&& !counted ==> (answer matches Err(ApiError::BadRequest { code, .. }) && code
                == "invalid_usage")
            &&& counted && row is None ==> (answer matches Err(refused) && refused is NotFound)
            &&& counted ==> (row matches Some(row) ==> {
                let mine = row.leased_to_node_id == Some(command.node_id) && row.node_user_id
                    == command.worker_user_id && row.node_device_key_id == Some(
                    command.claim_device_key_id,
                ) && row.claim_device_key_id == Some(command.claim_device_key_id)
                    && row.claim_device_binding_version == Some(binding_version);
                &&& !mine ==> (answer matches Err(refused) && refused is Forbidden)
                &&& mine && row.status@ != "leased"@ && row.status@ != "succeeded"@ ==> (
                answer matches Err(ApiError::Conflict { code, .. }) && code == "job_not_leased")
            })
        }),
{
}

/// A Standard result that comes after its lease is refused as too late.
pub proof fn late_results_are_refused(facts: SettlementFacts, input: int, output: int)
    requires
        lease_expired(facts.lease_expires_at, facts.now),
    ensures
        settlement_step("standard"@, facts, input, output) matches Err(
            ApiError::Conflict { code, .. },
        ) && code == "lease_expired",
{
    reveal_strlit("standard");
    reveal_strlit("regulated");
    assert("standard"@[0] == 's' && "regulated"@[0] == 'r');
}

/// A lease is over at its end, and where none is known.
pub proof fn leases_are_over_at_their_end(lease_expires_at: Option<i128>, now: i128)
    ensures
        lease_expired(lease_expires_at, now) <==> !(lease_expires_at matches Some(end) && now < end),
{
}

/// A settlement that the consumer cannot pay is refused for that.
pub proof fn unpaid_settlements_are_refused(
    calculated: CalculatedSettlement,
    precreate_weight: Option<i32>,
    graph_weight: i32,
    balances: SettlementBalances,
)
    requires
        0 <= calculated.contribution_points_micro <= 1_000_000_000_000,
        0 <= graph_weight <= 1_000_000,
        precreate_weight matches Some(weight) ==> 0 <= weight <= 1_000_000,
    ensures
        calculated.user_deduction_micro <= balances.reserved_cost_micro
            && balances.consumer_spendable_micro < calculated.user_deduction_micro
            ==> settlement_plan(calculated, precreate_weight, graph_weight, balances) == Err::<
            SettlementPlan,
            ApiError,
        >(ApiError::InsufficientQuota),
        calculated.user_deduction_micro > balances.reserved_cost_micro ==> settlement_plan(
            calculated,
            precreate_weight,
            graph_weight,
            balances,
        ) == Err::<SettlementPlan, ApiError>(ApiError::Internal),
{
    let weight = contribution_weight(precreate_weight, graph_weight);
    let points = calculated.contribution_points_micro;
    assert(0 <= points * weight <= 1_000_000_000_000 * 1_000_000) by (nonlinear_arith)
        requires
            0 <= points <= 1_000_000_000_000,
            0 <= weight <= 1_000_000,
    ;
}

} // verus!
