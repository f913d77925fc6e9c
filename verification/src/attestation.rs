//! Remote attestation of hardware: what a challenge is made of, and when its answer
//! earns a node enhanced trust.

use vstd::prelude::*;

use crate::bindings;
use crate::bindings::hex_digest;
use crate::challenges::new_seed;
use crate::clock;
use crate::crypto;
use crate::error;
use crate::error::ApiError;
use crate::ids::Uuid;
use crate::jobs::AttestationProvider;
use crate::regulated::AttestationEvidenceKind;
use crate::text;

verus! {

/// The most bytes that evidence may have.
pub const MAX_EVIDENCE_BYTES: usize = 589_824;

/// What the operator accepts of a provider of hardware attestation. `deployable` says
/// whether all that is needed to verify its evidence was configured.
pub struct HardwareAttestationConfig {
    pub deployable: bool,
    pub allowed_policy_hashes: Vec<String>,
    pub allowed_runtime_hashes: Vec<String>,
    pub allowed_tee_measurements: Vec<String>,
}

/// A text is in a list.
pub open spec fn listed(list: Seq<String>, value: Seq<char>) -> bool {
    exists|i: int| 0 <= i < list.len() && (#[trigger] list[i])@ == value
}

fn is_listed(list: &Vec<String>, value: &str) -> (found: bool)
    ensures
        found == listed(list@, value@),
{
    let mut i: usize = 0;
    while i < list.len()
        invariant
            i <= list@.len(),
            forall|j: int| 0 <= j < i ==> (#[trigger] list@[j])@ != value@,
        decreases list@.len() - i,
    {
        if text::same_text(list[i].as_str(), value) {
            assert(list@[i as int]@ == value@);
            return true;
        }
        i += 1;
    }
    false
}

impl HardwareAttestationConfig {
    /// Evidence about this policy and this runtime can be verified and is accepted.
    pub open spec fn accepts(self, policy_hash: Seq<char>, runtime_hash: Seq<char>) -> bool {
        &&& self.deployable
        &&& listed(self.allowed_policy_hashes@, policy_hash)
        &&& listed(self.allowed_runtime_hashes@, runtime_hash)
    }
}

pub open spec fn challenge_refusal(
    config: Option<HardwareAttestationConfig>,
    policy_hash: Seq<char>,
    runtime_hash: Seq<char>,
) -> Option<ApiError> {
    match config {
        None => Some(ApiError::attestation_failed("不支持该硬件证明提供者")),
        Some(config) => if !config.deployable {
            Some(
                ApiError::attestation_unavailable(
                    "协调服务器没有为该提供者配置固定 verifier、策略/运行时哈希和 TEE measurement allowlist",
                ),
            )
        } else if !config.accepts(policy_hash, runtime_hash) {
            Some(
                ApiError::attestation_failed("当前沙盒策略或推理运行时不在服务器 Enhanced allowlist"),
            )
        } else {
            None
        },
    }
}

/// Checks that a challenge for this policy and this runtime makes sense. `None` stands
/// for a provider that there is none of.
pub fn check_challenge_request(
    config: &Option<HardwareAttestationConfig>,
    policy_hash: &str,
    runtime_hash: &str,
) -> (checked: Result<(), ApiError>)
    ensures
        checked == error::unless(challenge_refusal(*config, policy_hash@, runtime_hash@), ()),
{
    match config {
        None => Err(ApiError::attestation_failed("不支持该硬件证明提供者")),
        Some(config) => {
            if !config.deployable {
                return Err(
                    ApiError::attestation_unavailable(
                        "协调服务器没有为该提供者配置固定 verifier、策略/运行时哈希和 TEE measurement allowlist",
                    ),
                );
            }
            if !is_listed(&config.allowed_policy_hashes, policy_hash) || !is_listed(
                &config.allowed_runtime_hashes,
                runtime_hash,
            ) {
                return Err(
                    ApiError::attestation_failed(
                        "当前沙盒策略或推理运行时不在服务器 Enhanced allowlist",
                    ),
                );
            }
            Ok(())
        },
    }
}

/// Checks that the node publishes the instance that is to be attested.
pub fn check_attested_instance(instance_node: Uuid, instance_status: &str, node_id: Uuid) -> (checked: Result<
    (),
    ApiError,
>)
    ensures
        checked == if instance_node == node_id && instance_status@ == "published"@ {
            Ok::<(), ApiError>(())
        } else {
            Err::<(), ApiError>(
                ApiError::attestation_failed("远程证明要求节点当前拥有已发布的模型实例"),
            )
        },
{
    if instance_node != node_id || !text::same_text(instance_status, "published") {
        return Err(ApiError::attestation_failed("远程证明要求节点当前拥有已发布的模型实例"));
    }
    Ok(())
}

/// A challenge as it is issued: the nonce goes out in Base64, and its digest is kept.
pub struct ChallengeNonce {
    pub nonce: String,
    pub nonce_hash: String,
    pub expires_at: i128,
}

/// Issues a challenge over a nonce. A lifetime beyond what a duration can hold is an
/// internal error.
pub fn issue_nonce(nonce: &[u8; 32], now: i128, ttl_seconds: u64) -> (issued: Result<
    ChallengeNonce,
    ApiError,
>)
    requires
        clock::is_moment(now),
        ttl_seconds <= i64::MAX ==> now + ttl_seconds * clock::NANOS_PER_SECOND
            <= clock::MAX_MOMENT,
    ensures
        match issued {
            Ok(issued) => {
                &&& ttl_seconds <= i64::MAX
                &&& issued.nonce@ == crypto::base64_url_text(nonce@)
                &&& issued.nonce_hash@ == bindings::digest_text(nonce@)
                &&& issued.expires_at == now + ttl_seconds * clock::NANOS_PER_SECOND
            },
            Err(refused) => ttl_seconds > i64::MAX && refused == ApiError::internal(),
        },
{
    let expires_at: i128 = clock::expiry(now, ttl_seconds)?;
    Ok(
        ChallengeNonce {
            nonce: crypto::base64_url_encode(nonce.as_slice()),
            nonce_hash: hex_digest(nonce.as_slice()),
            expires_at,
        },
    )
}

/// Issues a challenge over a random nonce, which is returned with it. Besides a lifetime
/// beyond what a duration can hold, only a system that gives no random bytes makes this
/// fail.
pub fn new_nonce(now: i128, ttl_seconds: u64) -> (issued: Result<
    ([u8; 32], ChallengeNonce),
    ApiError,
>)
    requires
        clock::is_moment(now),
        ttl_seconds <= i64::MAX ==> now + ttl_seconds * clock::NANOS_PER_SECOND
            <= clock::MAX_MOMENT,
    ensures
        match issued {
            Ok((nonce, issued)) => {
                &&& ttl_seconds <= i64::MAX
                &&& issued.nonce@ == crypto::base64_url_text(nonce@)
                &&& issued.nonce_hash@ == bindings::digest_text(nonce@)
                &&& issued.expires_at == now + ttl_seconds * clock::NANOS_PER_SECOND
            },
            Err(refused) => refused == ApiError::internal(),
        },
{
    let nonce = new_seed()?;
    let issued = issue_nonce(&nonce, now, ttl_seconds)?;
    Ok((nonce, issued))
}

/// The bytes that evidence holds, or why it is refused.
pub open spec fn decoded_evidence(evidence: Seq<char>) -> Result<Seq<u8>, ApiError> {
    match crypto::base64_bytes(evidence) {
        None => Err(ApiError::attestation_failed("证明证据不是有效的标准 base64")),
        Some(bytes) => if bytes.len() == 0 || bytes.len() > MAX_EVIDENCE_BYTES {
            Err(ApiError::attestation_failed("解码后的证明证据为空或超过 576 KiB"))
        } else {
            Ok(bytes)
        },
    }
}

/// Decodes evidence of bounded size, and takes its digest.
pub fn evidence_digest(evidence: &str) -> (digest: Result<String, ApiError>)
    ensures
        match digest {
            Ok(digest) => decoded_evidence(evidence@) matches Ok(bytes) && digest@
                == bindings::digest_text(bytes),
            Err(refused) => decoded_evidence(evidence@) == Err::<Seq<u8>, ApiError>(refused),
        },
{
    match crypto::base64_decode(evidence) {
        None => Err(ApiError::attestation_failed("证明证据不是有效的标准 base64")),
        Some(bytes) => if bytes.len() == 0 || bytes.len() > MAX_EVIDENCE_BYTES {
            Err(ApiError::attestation_failed("解码后的证明证据为空或超过 576 KiB"))
        } else {
            Ok(hex_digest(bytes.as_slice()))
        },
    }
}

/// Who made the key that a session is encrypted to.
#[derive(Clone, Copy, Debug, PartialEq, Eq, Structural)]
pub enum AttestationKeyOrigin {
    ControlSoftware,
    TeeRuntime,
}

impl AttestationKeyOrigin {
    pub open spec fn name(self) -> Seq<char> {
        match self {
            AttestationKeyOrigin::ControlSoftware => "control_software"@,
            AttestationKeyOrigin::TeeRuntime => "tee_runtime"@,
        }
    }
}

pub fn key_origin_db(value: AttestationKeyOrigin) -> (name: &'static str)
    ensures
        name@ == value.name(),
{
    match value {
        AttestationKeyOrigin::ControlSoftware => "control_software",
        AttestationKeyOrigin::TeeRuntime => "tee_runtime",
    }
}

pub fn key_origin_from_db(value: &str) -> (origin: Result<AttestationKeyOrigin, ApiError>)
    ensures
        match origin {
            Ok(origin) => origin.name() == value@,
            Err(refused) => refused == ApiError::internal() && forall|origin: AttestationKeyOrigin|
                #[trigger] origin.name() != value@,
        },
{
    if text::same_text(value, "control_software") {
        Ok(AttestationKeyOrigin::ControlSoftware)
    } else if text::same_text(value, "tee_runtime") {
        Ok(AttestationKeyOrigin::TeeRuntime)
    } else {
        Err(ApiError::internal())
    }
}

pub fn evidence_kind_db(value: AttestationEvidenceKind) -> (name: &'static str)
    ensures
        name@ == value.name(),
{
    match value {
        AttestationEvidenceKind::SnpExtendedReport => "snp_extended_report",
        AttestationEvidenceKind::TdxQuote => "tdx_quote",
    }
}

/// A stored origin is read back as the one that was stored.
pub proof fn key_origins_are_told_apart(first: AttestationKeyOrigin, second: AttestationKeyOrigin)
    requires
        first.name() == second.name(),
    ensures
        first == second,
{
    reveal_strlit("control_software");
    reveal_strlit("tee_runtime");
    assert("control_software"@.len() == 16);
    assert("tee_runtime"@.len() == 11);
}

pub open spec fn submission_refusal(
    submitter: Uuid,
    challenge_user: Uuid,
    status: Seq<char>,
    consumed: bool,
) -> Option<ApiError> {
    if challenge_user != submitter {
        Some(ApiError::forbidden("无权提交该远程证明挑战"))
    } else if status != "pending"@ || consumed {
        Some(ApiError::conflict("attestation_replay", "远程证明挑战已消费，拒绝重放"))
    } else {
        None
    }
}

/// Checks that a challenge can be answered: by the account that asked for it, and for
/// the first time.
pub fn authorize_submission(submitter: Uuid, challenge_user: Uuid, status: &str, consumed: bool) -> (authorized: Result<
    (),
    ApiError,
>)
    ensures
        authorized == error::unless(
            submission_refusal(submitter, challenge_user, status@, consumed),
            (),
        ),
{
    if challenge_user != submitter {
        return Err(ApiError::forbidden("无权提交该远程证明挑战"));
    }
    if !text::same_text(status, "pending") || consumed {
        return Err(ApiError::conflict("attestation_replay", "远程证明挑战已消费，拒绝重放"));
    }
    Ok(())
}

/// A challenge is answered once: neither a consumed challenge nor one that is over can
/// be answered again.
pub proof fn challenges_are_answered_once(
    submitter: Uuid,
    challenge_user: Uuid,
    status: Seq<char>,
    consumed: bool,
)
    requires
        consumed || status != "pending"@,
    ensures
        submission_refusal(submitter, challenge_user, status, consumed) is Some,
{
}

/// The provider whose hardware makes evidence of a kind.
pub open spec fn provider_of(kind: AttestationEvidenceKind) -> AttestationProvider {
    match kind {
        AttestationEvidenceKind::SnpExtendedReport => AttestationProvider::AmdSevSnp,
        AttestationEvidenceKind::TdxQuote => AttestationProvider::IntelTdx,
    }
}

impl AttestationEvidenceKind {
    pub fn matches_provider(self, provider: AttestationProvider) -> (matches: bool)
        ensures
            matches == (provider_of(self) == provider),
    {
        match (self, provider) {
            (AttestationEvidenceKind::SnpExtendedReport, AttestationProvider::AmdSevSnp) => true,
            (AttestationEvidenceKind::TdxQuote, AttestationProvider::IntelTdx) => true,
            _ => false,
        }
    }
}

/// A challenge with the answer to it, before the evidence is verified.
pub struct ChallengeAnswer {
    pub challenge_provider: AttestationProvider,
    pub challenge_expires_at: i128,
    pub policy_hash: String,
    pub runtime_hash: String,
    pub provider: Option<AttestationProvider>,
    pub evidence_kind: AttestationEvidenceKind,
    pub resource_binding_current: bool,
}

/// The instance, the node and the weights still are those of the challenge. `None`
/// stands for an instance that is gone.
pub fn resource_binding_current(
    resource: &Option<(Uuid, String, String)>,
    node_id: Uuid,
    model_hash: &str,
) -> (current: bool)
    ensures
        current == (*resource matches Some((instance_node, status, weights)) && instance_node
            == node_id && status@ == "published"@ && weights@ == model_hash@),
{
    match resource {
        Some((instance_node, status, weights)) => *instance_node == node_id && text::same_text(
            status.as_str(),
            "published",
        ) && text::same_text(weights.as_str(), model_hash),
        None => false,
    }
}

/// Why evidence is not even looked at, if so.
pub open spec fn early_reason(
    answer: ChallengeAnswer,
    policy: HardwareAttestationConfig,
    now: i128,
) -> Option<Seq<char>> {
    if answer.challenge_expires_at <= now {
        Some("challenge_expired"@)
    } else if answer.provider != Some(answer.challenge_provider) || provider_of(
        answer.evidence_kind,
    ) != answer.challenge_provider {
        Some("provider_mismatch"@)
    } else if !answer.resource_binding_current {
        Some("resource_binding_changed"@)
    } else if !policy.accepts(answer.policy_hash@, answer.runtime_hash@) {
        Some("server_policy_unavailable"@)
    } else {
        None
    }
}

/// Decides whether the evidence is to be verified; if not, says why.
pub fn reason_before_verification(
    answer: &ChallengeAnswer,
    policy: &HardwareAttestationConfig,
    now: i128,
) -> (reason: Option<&'static str>)
    ensures
        match reason {
            Some(reason) => early_reason(*answer, *policy, now) == Some(reason@),
            None => early_reason(*answer, *policy, now) is None,
        },
{
    if answer.challenge_expires_at <= now {
        return Some("challenge_expired");
    }
    let same_provider = match answer.provider {
        Some(provider) => provider == answer.challenge_provider,
        None => false,
    };
    if !same_provider || !answer.evidence_kind.matches_provider(answer.challenge_provider) {
        return Some("provider_mismatch");
    }
    if !answer.resource_binding_current {
        return Some("resource_binding_changed");
    }
    if !policy.deployable || !is_listed(&policy.allowed_policy_hashes, answer.policy_hash.as_str())
        || !is_listed(&policy.allowed_runtime_hashes, answer.runtime_hash.as_str()) {
        return Some("server_policy_unavailable");
    }
    None
}

/// What the verifier concluded from evidence. Times are nanoseconds since the Unix
/// epoch.
pub struct VerificationClaims {
    pub verifier_name: String,
    pub provider: AttestationProvider,
    pub evidence_kind: AttestationEvidenceKind,
    pub verified: bool,
    pub report_data: String,
    pub tee_measurement: String,
    pub signature_verified: bool,
    pub certificate_chain_verified: bool,
    pub tcb_current: bool,
    pub collateral_current: bool,
    pub collateral_expires_at: i128,
}

/// Every conclusion that enhanced trust takes.
pub open spec fn all_conclusions_hold(
    claims: VerificationClaims,
    provider: AttestationProvider,
    evidence_kind: AttestationEvidenceKind,
    expected_report_data: Seq<char>,
    policy: HardwareAttestationConfig,
    now: i128,
) -> bool {
    &&& claims.provider == provider
    &&& claims.evidence_kind == evidence_kind
    &&& claims.report_data@ == expected_report_data
    &&& listed(policy.allowed_tee_measurements@, claims.tee_measurement@)
    &&& claims.signature_verified
    &&& claims.certificate_chain_verified
    &&& claims.tcb_current
    &&& claims.collateral_current
    &&& claims.collateral_expires_at > now
    &&& claims.verified
}

/// The first conclusion that is missing, or that none is.
pub open spec fn claims_verdict(
    claims: VerificationClaims,
    provider: AttestationProvider,
    evidence_kind: AttestationEvidenceKind,
    expected_report_data: Seq<char>,
    policy: HardwareAttestationConfig,
    now: i128,
) -> Seq<char> {
    if claims.provider != provider || claims.evidence_kind != evidence_kind {
        "verifier_provider_mismatch"@
    } else if claims.report_data@ != expected_report_data {
        "report_data_mismatch"@
    } else if !listed(policy.allowed_tee_measurements@, claims.tee_measurement@) {
        "tee_measurement_not_allowed"@
    } else if !claims.signature_verified {
        "signature_not_verified"@
    } else if !claims.certificate_chain_verified {
        "certificate_chain_not_verified"@
    } else if !claims.tcb_current {
        "tcb_not_current"@
    } else if !claims.collateral_current || claims.collateral_expires_at <= now {
        "collateral_not_current"@
    } else if !claims.verified {
        "verifier_rejected"@
    } else {
        "verified"@
    }
}

/// Judges what the verifier concluded. Its own verdict alone is not enough: every
/// conclusion that it rests on is looked at.
pub fn evaluate_claims(
    claims: &VerificationClaims,
    provider: AttestationProvider,
    evidence_kind: AttestationEvidenceKind,
    expected_report_data: &str,
    policy: &HardwareAttestationConfig,
    now: i128,
) -> (verdict: &'static str)
    ensures
        verdict@ == claims_verdict(
            *claims,
            provider,
            evidence_kind,
            expected_report_data@,
            *policy,
            now,
        ),
{
    if claims.provider != provider || claims.evidence_kind != evidence_kind {
        return "verifier_provider_mismatch";
    }
    if !text::same_text(claims.report_data.as_str(), expected_report_data) {
        return "report_data_mismatch";
    }
    if !is_listed(&policy.allowed_tee_measurements, claims.tee_measurement.as_str()) {
        return "tee_measurement_not_allowed";
    }
    if !claims.signature_verified {
        return "signature_not_verified";
    }
    if !claims.certificate_chain_verified {
        return "certificate_chain_not_verified";
    }
    if !claims.tcb_current {
        return "tcb_not_current";
    }
    if !claims.collateral_current || claims.collateral_expires_at <= now {
        return "collateral_not_current";
    }
    if !claims.verified {
        return "verifier_rejected";
    }
    "verified"
}

/// Evidence counts as verified exactly if every conclusion holds; one that is missing
/// is enough to fail.
pub proof fn verified_takes_every_conclusion(
    claims: VerificationClaims,
    provider: AttestationProvider,
    evidence_kind: AttestationEvidenceKind,
    expected_report_data: Seq<char>,
    policy: HardwareAttestationConfig,
    now: i128,
)
    ensures
        claims_verdict(claims, provider, evidence_kind, expected_report_data, policy, now)
            == "verified"@ <==> all_conclusions_hold(
            claims,
            provider,
            evidence_kind,
            expected_report_data,
            policy,
            now,
        ),
{
    reveal_strlit("verified");
    reveal_strlit("verifier_provider_mismatch");
    reveal_strlit("report_data_mismatch");
    reveal_strlit("tee_measurement_not_allowed");
    reveal_strlit("signature_not_verified");
    reveal_strlit("certificate_chain_not_verified");
    reveal_strlit("tcb_not_current");
    reveal_strlit("collateral_not_current");
    reveal_strlit("verifier_rejected");
    assert("verified"@.len() == 8);
    assert("verifier_provider_mismatch"@.len() == 26);
    assert("report_data_mismatch"@.len() == 20);
    assert("tee_measurement_not_allowed"@.len() == 27);
    assert("signature_not_verified"@.len() == 22);
    assert("certificate_chain_not_verified"@.len() == 30);
    assert("tcb_not_current"@.len() == 15);
    assert("collateral_not_current"@.len() == 22);
    assert("verifier_rejected"@.len() == 17);
}

/// What is recorded of an answer, whether or not it is accepted.
pub struct AttestationVerdict {
    pub verified: bool,
    pub report_status: &'static str,
    pub report_expires_at: i128,
    pub verifier_name: String,
    pub tee_measurement: Option<String>,
    pub collateral_expires_at: Option<i128>,
    pub signature_verified: bool,
    pub certificate_chain_verified: bool,
    pub tcb_current: bool,
    pub collateral_current: bool,
}

/// When trust that rests on a report ends: with the report, and not after what the
/// report itself rests on.
pub open spec fn trust_end(collateral_expires_at: Option<i128>, configured: int) -> int {
    match collateral_expires_at {
        Some(collateral) => if collateral < configured {
            collateral as int
        } else {
            configured
        },
        None => configured,
    }
}

/// What is recorded of an answer that comes to a reason: the conclusions of the
/// verifier, or that there are none, and how long the trust lasts that it earns.
pub open spec fn is_verdict(
    verdict: AttestationVerdict,
    claims: Option<VerificationClaims>,
    reason: Seq<char>,
    now: i128,
    challenge_expires_at: i128,
    report_ttl_seconds: u64,
) -> bool {
    &&& verdict.verified == (reason == "verified"@)
    &&& verdict.report_status@ == if reason == "challenge_expired"@ {
        "expired"@
    } else if reason == "verified"@ {
        "verified"@
    } else {
        "rejected"@
    }
    &&& verdict.report_expires_at == if verdict.verified {
        trust_end(
            match claims {
                Some(claims) => Some(claims.collateral_expires_at),
                None => None,
            },
            now + report_ttl_seconds * clock::NANOS_PER_SECOND,
        )
    } else {
        challenge_expires_at as int
    }
    &&& match claims {
        Some(claims) => {
            &&& verdict.verifier_name@ == claims.verifier_name@
            &&& text::holds(verdict.tee_measurement, claims.tee_measurement@)
            &&& verdict.collateral_expires_at == Some(claims.collateral_expires_at)
            &&& verdict.signature_verified == claims.signature_verified
            &&& verdict.certificate_chain_verified == claims.certificate_chain_verified
            &&& verdict.tcb_current == claims.tcb_current
            &&& verdict.collateral_current == claims.collateral_current
        },
        None => {
            &&& verdict.verifier_name@ == "mindone-coordinator-fail-closed"@
            &&& verdict.tee_measurement is None
            &&& verdict.collateral_expires_at is None
            &&& !verdict.signature_verified
            &&& !verdict.certificate_chain_verified
            &&& !verdict.tcb_current
            &&& !verdict.collateral_current
        },
    }
}

/// Concludes an answer: what is recorded, and how long the trust lasts that it earns.
/// A lifetime that ends after the calendar does is an internal error.
pub fn conclude(
    claims: Option<&VerificationClaims>,
    reason: &str,
    now: i128,
    challenge_expires_at: i128,
    report_ttl_seconds: u64,
) -> (verdict: Result<AttestationVerdict, ApiError>)
    requires
        clock::is_moment(now),
    ensures
        match verdict {
            Err(refused) => {
                &&& refused == ApiError::internal()
                &&& reason@ == "verified"@ && clock::moment_after(
                    now,
                    report_ttl_seconds as int,
                ) is Err
            },
            Ok(verdict) => {
                &&& reason@ == "verified"@ ==> clock::moment_after(
                    now,
                    report_ttl_seconds as int,
                ) is Ok
                &&& is_verdict(
                    verdict,
                    match claims {
                        Some(claims) => Some(*claims),
                        None => None,
                    },
                    reason@,
                    now,
                    challenge_expires_at,
                    report_ttl_seconds,
                )
            },
        },
{
    let verified = text::same_text(reason, "verified");
    let report_expires_at: i128 = if verified {
        let configured: i128 = clock::expiry(now, report_ttl_seconds)?;
        match claims {
            Some(claims) => if claims.collateral_expires_at < configured {
                claims.collateral_expires_at
            } else {
                configured
            },
            None => configured,
        }
    } else {
        challenge_expires_at
    };
    let report_status = if text::same_text(reason, "challenge_expired") {
        "expired"
    } else if verified {
        "verified"
    } else {
        "rejected"
    };
    match claims {
        Some(claims) => Ok(
            AttestationVerdict {
                verified,
                report_status,
                report_expires_at,
                verifier_name: claims.verifier_name.clone(),
                tee_measurement: Some(claims.tee_measurement.clone()),
                collateral_expires_at: Some(claims.collateral_expires_at),
                signature_verified: claims.signature_verified,
                certificate_chain_verified: claims.certificate_chain_verified,
                tcb_current: claims.tcb_current,
                collateral_current: claims.collateral_current,
            },
        ),
        None => Ok(
            AttestationVerdict {
                verified,
                report_status,
                report_expires_at,
                verifier_name: String::from_str("mindone-coordinator-fail-closed"),
                tee_measurement: None,
                collateral_expires_at: None,
                signature_verified: false,
                certificate_chain_verified: false,
                tcb_current: false,
                collateral_current: false,
            },
        ),
    }
}

/// What is answered to evidence that was not accepted: the reason is told.
pub fn attestation_rejected(reason: &str) -> (refused: ApiError)
    ensures
        refused matches ApiError::AttestationReason { detail } && detail@
            == "硬件远程证明未通过服务端验证（"@ + reason@ + "）"@,
{
    let mut detail = String::new();
    text::push_text(&mut detail, "硬件远程证明未通过服务端验证（");
    text::push_text(&mut detail, reason);
    text::push_text(&mut detail, "）");
    assert(detail@ =~= "硬件远程证明未通过服务端验证（"@ + reason@ + "）"@);
    ApiError::AttestationReason { detail }
}

/// What came of verifying evidence: what the verifier concluded, or the code under which
/// it failed.
pub enum Verification {
    Concluded(VerificationClaims),
    Failed { audit_code: String },
}

/// What an answer comes to, in a word.
pub open spec fn answer_reason(
    answer: ChallengeAnswer,
    policy: HardwareAttestationConfig,
    expected_report_data: Seq<char>,
    verification: Verification,
    now: i128,
) -> Seq<char> {
    match (early_reason(answer, policy, now), verification) {
        (Some(reason), _) => reason,
        (None, Verification::Concluded(claims)) => claims_verdict(
            claims,
            answer.challenge_provider,
            answer.evidence_kind,
            expected_report_data,
            policy,
            now,
        ),
        (None, Verification::Failed { audit_code }) => audit_code@,
    }
}

/// What is recorded of the conclusions of the verifier: nothing where the evidence was
/// not looked at.
pub open spec fn recorded_claims(
    answer: ChallengeAnswer,
    policy: HardwareAttestationConfig,
    verification: Verification,
    now: i128,
) -> Option<VerificationClaims> {
    match (early_reason(answer, policy, now), verification) {
        (None, Verification::Concluded(claims)) => Some(claims),
        _ => None,
    }
}

/// Takes the answer to a challenge: says what it comes to, and what is recorded of it.
/// What the verifier makes of evidence that is not to be looked at changes nothing.
pub fn submit_attestation(
    answer: &ChallengeAnswer,
    policy: &HardwareAttestationConfig,
    expected_report_data: &str,
    verification: &Verification,
    now: i128,
    report_ttl_seconds: u64,
) -> (concluded: Result<(String, AttestationVerdict), ApiError>)
    requires
        clock::is_moment(now),
    ensures
        ({
            let reason = answer_reason(
                *answer,
                *policy,
                expected_report_data@,
                *verification,
                now,
            );
            match concluded {
                Ok((told, verdict)) => {
                    &&& told@ == reason
                    &&& reason == "verified"@ ==> clock::moment_after(
                        now,
                        report_ttl_seconds as int,
                    ) is Ok
                    &&& is_verdict(
                        verdict,
                        recorded_claims(*answer, *policy, *verification, now),
                        reason,
                        now,
                        answer.challenge_expires_at,
                        report_ttl_seconds,
                    )
                },
                Err(refused) => {
                    &&& refused == ApiError::internal()
                    &&& reason == "verified"@ && clock::moment_after(
                        now,
                        report_ttl_seconds as int,
                    ) is Err
                },
            }
        }),
{
    match (reason_before_verification(answer, policy, now), verification) {
        (Some(reason), _) => {
            let verdict = conclude(
                None,
                reason,
                now,
                answer.challenge_expires_at,
                report_ttl_seconds,
            )?;
            Ok((reason.to_owned(), verdict))
        },
        (None, Verification::Concluded(claims)) => {
            let reason = evaluate_claims(
                claims,
                answer.challenge_provider,
                answer.evidence_kind,
                expected_report_data,
                policy,
                now,
            );
            let verdict = conclude(
                Some(claims),
                reason,
                now,
                answer.challenge_expires_at,
                report_ttl_seconds,
            )?;
            Ok((reason.to_owned(), verdict))
        },
        (None, Verification::Failed { audit_code }) => {
            let verdict = conclude(
                None,
                audit_code.as_str(),
                now,
                answer.challenge_expires_at,
                report_ttl_seconds,
            )?;
            Ok((audit_code.clone(), verdict))
        },
    }
}

/// A node earns enhanced trust only with evidence of which every conclusion holds, for a
/// challenge that is alive, on resources that are still those of the challenge; and the
/// trust ends no later than what it rests on.
pub proof fn trust_takes_verified_evidence(
    answer: ChallengeAnswer,
    policy: HardwareAttestationConfig,
    expected_report_data: Seq<char>,
    verification: Verification,
    now: i128,
    verdict: AttestationVerdict,
    report_ttl_seconds: u64,
)
    requires
        verification matches Verification::Failed { audit_code } ==> audit_code@ != "verified"@,
        is_verdict(
            verdict,
            recorded_claims(answer, policy, verification, now),
            answer_reason(answer, policy, expected_report_data, verification, now),
            now,
            answer.challenge_expires_at,
            report_ttl_seconds,
        ),
        verdict.verified,
    ensures
        answer.challenge_expires_at > now,
        answer.resource_binding_current,
        policy.accepts(answer.policy_hash@, answer.runtime_hash@),
        verification is Concluded,
        all_conclusions_hold(
            verification->Concluded_0,
            answer.challenge_provider,
            answer.evidence_kind,
            expected_report_data,
            policy,
            now,
        ),
        verdict.report_expires_at <= verification->Concluded_0.collateral_expires_at,
{
    reveal_strlit("verified");
    reveal_strlit("challenge_expired");
    reveal_strlit("provider_mismatch");
    reveal_strlit("resource_binding_changed");
    reveal_strlit("server_policy_unavailable");
    assert("verified"@.len() == 8);
    assert("challenge_expired"@.len() == 17);
    assert("provider_mismatch"@.len() == 17);
    assert("resource_binding_changed"@.len() == 24);
    assert("server_policy_unavailable"@.len() == 25);
    if let Verification::Concluded(claims) = verification {
        verified_takes_every_conclusion(
            claims,
            answer.challenge_provider,
            answer.evidence_kind,
            expected_report_data,
            policy,
            now,
        );
    }
}

/// What a verdict changes: the status in which the challenge is consumed, and until when
/// the node is trusted, if its trust changes.
#[derive(Clone, Copy, Debug, PartialEq, Eq)]
pub struct AttestationEffects {
    pub challenge_status: &'static str,
    pub challenge_consumed: bool,
    pub enhanced_until: Option<i128>,
}

/// The challenge is consumed whatever the verdict; the node is trusted only if the verdict
/// is that the evidence was verified.
pub open spec fn is_effect(effects: AttestationEffects, verdict: AttestationVerdict) -> bool {
    &&& effects.challenge_status@ == verdict.report_status@
    &&& effects.challenge_consumed
    &&& effects.enhanced_until == if verdict.verified {
        Some(verdict.report_expires_at)
    } else {
        None
    }
}

/// What is answered to a submission: until when the node is trusted, or why it is not.
pub open spec fn is_answer(
    answer: Result<i128, ApiError>,
    verdict: AttestationVerdict,
    reason: Seq<char>,
) -> bool {
    match answer {
        Ok(expires_at) => verdict.verified && expires_at == verdict.report_expires_at,
        Err(refused) => !verdict.verified && (refused matches ApiError::AttestationReason {
            detail,
        } && detail@ == "硬件远程证明未通过服务端验证（"@ + reason + "）"@),
    }
}

/// Says what a verdict changes, and what is answered.
pub fn apply_verdict(verdict: &AttestationVerdict, reason: &str) -> (applied: (
    AttestationEffects,
    Result<i128, ApiError>,
))
    ensures
        is_effect(applied.0, *verdict),
        is_answer(applied.1, *verdict, reason@),
{
    let enhanced_until: Option<i128> = if verdict.verified {
        Some(verdict.report_expires_at)
    } else {
        None
    };
    let effects = AttestationEffects {
        challenge_status: verdict.report_status,
        challenge_consumed: true,
        enhanced_until,
    };
    let answer = if verdict.verified {
        Ok(verdict.report_expires_at)
    } else {
        Err(attestation_rejected(reason))
    };
    (effects, answer)
}

/// A submission is taken once. Whatever the verdict on it, the challenge is consumed, and
/// whoever submits for it again is refused: its own account as a replay. The node earns
/// enhanced trust exactly if the answer is a success, and then until the evidence or the
/// configured lifetime ends, whichever is first.
pub proof fn submissions_consume_their_challenge(
    answer: ChallengeAnswer,
    policy: HardwareAttestationConfig,
    expected_report_data: Seq<char>,
    verification: Verification,
    now: i128,
    report_ttl_seconds: u64,
    verdict: AttestationVerdict,
    effects: AttestationEffects,
    answered: Result<i128, ApiError>,
    challenge_user: Uuid,
    submitter: Uuid,
)
    requires
        is_verdict(
            verdict,
            recorded_claims(answer, policy, verification, now),
            answer_reason(answer, policy, expected_report_data, verification, now),
            now,
            answer.challenge_expires_at,
            report_ttl_seconds,
        ),
        is_effect(effects, verdict),
        is_answer(
            answered,
            verdict,
            answer_reason(answer, policy, expected_report_data, verification, now),
        ),
    ensures
        submission_refusal(
            submitter,
            challenge_user,
            effects.challenge_status@,
            effects.challenge_consumed,
        ) == Some(
            if submitter == challenge_user {
                ApiError::conflict("attestation_replay", "远程证明挑战已消费，拒绝重放")
            } else {
                ApiError::forbidden("无权提交该远程证明挑战")
            },
        ),
        effects.challenge_status@ != "pending"@,
        answered is Ok <==> effects.enhanced_until is Some,
        answered is Ok <==> answer_reason(answer, policy, expected_report_data, verification, now)
            == "verified"@,
        answered matches Ok(expires_at) ==> effects.enhanced_until == Some(expires_at)
            && expires_at == trust_end(
            match recorded_claims(answer, policy, verification, now) {
                Some(claims) => Some(claims.collateral_expires_at),
                None => None,
            },
            now + report_ttl_seconds * clock::NANOS_PER_SECOND,
        ),
{
    reveal_strlit("pending");
    reveal_strlit("expired");
    reveal_strlit("verified");
    reveal_strlit("rejected");
    assert("pending"@[0] == 'p');
    assert("expired"@[0] == 'e');
    assert("verified"@[0] == 'v');
    assert("rejected"@[0] == 'r');
}

/// The names of the two origins of a key, and which provider gives which kind of evidence.
pub proof fn origins_and_evidence_have_their_names()
    ensures
        AttestationKeyOrigin::ControlSoftware.name() == "control_software"@,
        AttestationKeyOrigin::TeeRuntime.name() == "tee_runtime"@,
        provider_of(AttestationEvidenceKind::SnpExtendedReport) == AttestationProvider::AmdSevSnp,
        provider_of(AttestationEvidenceKind::TdxQuote) == AttestationProvider::IntelTdx,
{
}

/// A challenge is issued exactly for a provider that is set up, to a node whose policy and whose
/// runtime both are on its lists.
pub proof fn challenges_are_for_listed_software(
    config: Option<HardwareAttestationConfig>,
    policy_hash: Seq<char>,
    runtime_hash: Seq<char>,
)
    ensures
        challenge_refusal(config, policy_hash, runtime_hash) is None <==> (config matches Some(
            config,
        ) && config.deployable && (exists|i: int|
            0 <= i < config.allowed_policy_hashes@.len()
                && (#[trigger] config.allowed_policy_hashes@[i])@ == policy_hash) && (exists|
            i: int,
        |
            0 <= i < config.allowed_runtime_hashes@.len()
                && (#[trigger] config.allowed_runtime_hashes@[i])@ == runtime_hash)),
        (config matches Some(config) && !config.deployable) <==> (challenge_refusal(
            config,
            policy_hash,
            runtime_hash,
        ) matches Some(refused) && refused is AttestationUnavailable),
{
}

/// Evidence is taken exactly if it decodes to some bytes, but no more than 589,824.
pub proof fn evidence_has_its_size(evidence: Seq<char>, bytes: Seq<u8>)
    ensures
        decoded_evidence(evidence) == Ok::<Seq<u8>, ApiError>(bytes) <==> crypto::base64_bytes(
            evidence,
        ) == Some(bytes) && 1 <= bytes.len() <= 589_824,
{
}

/// A challenge that is open is answered by whom it was issued to, and by nobody else.
pub proof fn open_challenges_are_answered(
    submitter: Uuid,
    challenge_user: Uuid,
    status: Seq<char>,
    consumed: bool,
)
    ensures
        submission_refusal(submitter, challenge_user, status, consumed) is None <==> submitter
            == challenge_user && status == "pending"@ && !consumed,
        submitter != challenge_user ==> (submission_refusal(
            submitter,
            challenge_user,
            status,
            consumed,
        ) matches Some(refused) && refused is Forbidden),
{
}

/// An answer goes to the verifier exactly if it comes in time, with the evidence of the provider
/// that was asked, about an instance that still is what it was, and with software that still is
/// on the lists.
pub proof fn answers_in_time_are_verified(
    answer: ChallengeAnswer,
    policy: HardwareAttestationConfig,
    now: i128,
)
    ensures
        early_reason(answer, policy, now) is None <==> {
            &&& now < answer.challenge_expires_at
            &&& answer.provider == Some(answer.challenge_provider)
            &&& answer.challenge_provider == AttestationProvider::AmdSevSnp <==> answer.evidence_kind
                == AttestationEvidenceKind::SnpExtendedReport
            &&& answer.resource_binding_current
            &&& policy.deployable
            &&& exists|i: int|
                0 <= i < policy.allowed_policy_hashes@.len()
                    && (#[trigger] policy.allowed_policy_hashes@[i])@ == answer.policy_hash@
            &&& exists|i: int|
                0 <= i < policy.allowed_runtime_hashes@.len()
                    && (#[trigger] policy.allowed_runtime_hashes@[i])@ == answer.runtime_hash@
        },
        now >= answer.challenge_expires_at ==> early_reason(answer, policy, now) == Some(
            "challenge_expired"@,
        ),
{
}

/// Evidence is believed exactly if the verifier speaks of what was asked, reports the data that
/// were bound to it, a measurement that is on the list, a signature and a chain that hold, and
/// firmware and collateral that are current, and itself concludes so.
pub proof fn claims_are_believed_exactly_if_all_hold(
    claims: VerificationClaims,
    provider: AttestationProvider,
    evidence_kind: AttestationEvidenceKind,
    expected_report_data: Seq<char>,
    policy: HardwareAttestationConfig,
    now: i128,
)
    ensures
        claims_verdict(claims, provider, evidence_kind, expected_report_data, policy, now)
            == "verified"@ <==> {
            &&& claims.provider == provider
            &&& claims.evidence_kind == evidence_kind
            &&& claims.report_data@ == expected_report_data
            &&& exists|i: int|
                0 <= i < policy.allowed_tee_measurements@.len()
                    && (#[trigger] policy.allowed_tee_measurements@[i])@ == claims.tee_measurement@
            &&& claims.signature_verified
            &&& claims.certificate_chain_verified
            &&& claims.tcb_current
            &&& claims.collateral_current
            &&& now < claims.collateral_expires_at
            &&& claims.verified
        },
{
    verified_takes_every_conclusion(
        claims,
        provider,
        evidence_kind,
        expected_report_data,
        policy,
        now,
    );
}

/// What the verifier failed to conclude, or what never went to it, comes to the reason that is
/// told; what it concluded comes to its verdict.
pub proof fn answers_come_to_their_reason(
    answer: ChallengeAnswer,
    policy: HardwareAttestationConfig,
    expected_report_data: Seq<char>,
    verification: Verification,
    now: i128,
)
    ensures
        early_reason(answer, policy, now) matches Some(early) ==> answer_reason(
            answer,
            policy,
            expected_report_data,
            verification,
            now,
        ) == early && recorded_claims(answer, policy, verification, now) is None,
        early_reason(answer, policy, now) is None ==> (verification matches Verification::Failed {
            audit_code,
        } ==> answer_reason(answer, policy, expected_report_data, verification, now)
            == audit_code@ && recorded_claims(answer, policy, verification, now) is None),
        early_reason(answer, policy, now) is None ==> (
        verification matches Verification::Concluded(claims) ==> answer_reason(
            answer,
            policy,
            expected_report_data,
            verification,
            now,
        ) == claims_verdict(
            claims,
            answer.challenge_provider,
            answer.evidence_kind,
            expected_report_data,
            policy,
            now,
        ) && recorded_claims(answer, policy, verification, now) == Some(claims)),
{
}

/// Trust lasts as long as reports do, but no longer than the collateral; a report that is not
/// verified ends with its challenge, and is marked as late or as rejected.
pub proof fn trust_ends_with_what_it_rests_on(
    verdict: AttestationVerdict,
    claims: Option<VerificationClaims>,
    reason: Seq<char>,
    now: i128,
    challenge_expires_at: i128,
    report_ttl_seconds: u64,
)
    requires
        is_verdict(verdict, claims, reason, now, challenge_expires_at, report_ttl_seconds),
    ensures
        verdict.verified <==> reason == "verified"@,
        reason == "verified"@ ==> {
            &&& verdict.report_status@ == "verified"@
            &&& verdict.report_expires_at <= now + report_ttl_seconds * 1_000_000_000
            &&& claims matches Some(claims) ==> verdict.report_expires_at
                <= claims.collateral_expires_at
            &&& verdict.report_expires_at == now + report_ttl_seconds * 1_000_000_000 || (
            claims matches Some(claims) && verdict.report_expires_at
                == claims.collateral_expires_at)
        },
        reason != "verified"@ ==> verdict.report_expires_at == challenge_expires_at,
        reason == "challenge_expired"@ ==> verdict.report_status@ == "expired"@,
        reason != "verified"@ && reason != "challenge_expired"@ ==> verdict.report_status@
            == "rejected"@,
        claims matches Some(claims) ==> {
            &&& verdict.verifier_name@ == claims.verifier_name@
            &&& verdict.tee_measurement matches Some(measurement) && measurement@
                == claims.tee_measurement@
            &&& verdict.collateral_expires_at == Some(claims.collateral_expires_at)
            &&& verdict.signature_verified == claims.signature_verified
            &&& verdict.certificate_chain_verified == claims.certificate_chain_verified
            &&& verdict.tcb_current == claims.tcb_current
            &&& verdict.collateral_current == claims.collateral_current
        },
        claims is None ==> verdict.tee_measurement is None && verdict.collateral_expires_at is None
            && !verdict.signature_verified && !verdict.certificate_chain_verified
            && !verdict.tcb_current && !verdict.collateral_current,
{
    reveal_strlit("verified");
    reveal_strlit("challenge_expired");
    assert("verified"@[0] == 'v' && "challenge_expired"@[0] == 'c');
}

/// A verified report gives its node trust until the report ends and is answered with that
/// moment; any other gives none and is refused. Either way the challenge is used up.
pub proof fn verdicts_take_effect(
    verdict: AttestationVerdict,
    effects: AttestationEffects,
    answered: Result<i128, ApiError>,
    reason: Seq<char>,
)
    requires
        is_effect(effects, verdict),
        is_answer(answered, verdict, reason),
    ensures
        effects.challenge_consumed,
        effects.challenge_status@ == verdict.report_status@,
        verdict.verified ==> effects.enhanced_until == Some(verdict.report_expires_at)
            && answered == Ok::<i128, ApiError>(verdict.report_expires_at),
        !verdict.verified ==> effects.enhanced_until is None && (answered matches Err(
            ApiError::AttestationReason { detail },
        ) && detail@ == "硬件远程证明未通过服务端验证（"@ + reason + "）"@),
{
}

} // verus!
