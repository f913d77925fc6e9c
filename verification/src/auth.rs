//! Logging in from a device: the flow that a device starts and polls, and the proofs
//! by which it shows that it holds its private key.

use vstd::prelude::*;

use crate::clock;
use crate::crypto;
use crate::error;
use crate::error::ApiError;
use crate::ids::Uuid;
use crate::nodes::{parse_db_trust_level, TrustLevel};
use crate::text;

verus! {

pub const DEVICE_PUBLIC_KEY_BYTES: usize = 32;

pub const DEVICE_KEY_SIGNATURE_BYTES: usize = 64;

/// Ends a session.
pub struct LogoutRequest {
    pub refresh_token: String,
}

impl LogoutRequest {
    /// What a logout revokes: the key of the device with all of its sessions, or the one
    /// session that has no key.
    pub fn revoked(session_id: Uuid, device_key_id: Option<Uuid>) -> (scope: LogoutScope)
        ensures
            scope == match device_key_id {
                Some(key) => LogoutScope::Device { device_key_id: key },
                None => LogoutScope::Session { session_id },
            },
    {
        match device_key_id {
            Some(device_key_id) => LogoutScope::Device { device_key_id },
            None => LogoutScope::Session { session_id },
        }
    }
}

#[derive(Clone, Copy, Debug, PartialEq, Eq, Structural)]
pub enum LogoutScope {
    Device { device_key_id: Uuid },
    Session { session_id: Uuid },
}

/// Why the service that identifies users gave no answer.
#[derive(Debug)]
pub struct ProviderError {
    pub message: String,
}

/// Whatever the reason is, callers learn only that the service is not available.
pub fn map_provider_error(failure: ProviderError) -> (refused: ApiError)
    ensures
        refused == ApiError::unavailable("auth_provider_unavailable", "认证提供者当前不可用"),
{
    ApiError::unavailable("auth_provider_unavailable", "认证提供者当前不可用")
}

/// The bytes that `length` pairs of lower case hexadecimal digits spell, if the text is
/// just that.
pub open spec fn lower_hex_bytes(value: Seq<char>, length: nat) -> Option<Seq<u8>> {
    if text::is_lower_hex(value, 2 * length) {
        Some(crypto::hex_bytes(value))
    } else {
        None
    }
}

/// Decodes lower case hexadecimal digits of a known number of bytes. Digits in upper
/// case are not accepted, so that a byte string has one spelling only.
pub fn decode_lower_hex(value: &str, length: usize) -> (bytes: Option<Vec<u8>>)
    requires
        length <= usize::MAX / 4,
    ensures
        match bytes {
            Some(bytes) => lower_hex_bytes(value@, length as nat) == Some(bytes@),
            None => lower_hex_bytes(value@, length as nat) is None,
        },
        bytes matches Some(bytes) ==> bytes@.len() == length,
{
    if !text::valid_lower_hex(value, 2 * length) {
        return None;
    }
    proof {
        assert(value@.len() % 2 == 0);
        assert forall|i: int| 0 <= i < value@.len() implies crypto::is_hex_digit(
            #[trigger] value@[i],
        ) by {
            assert(text::is_lower_hex_digit(value@[i]));
        }
    }
    crypto::hex_decode(value)
}

/// Decoding gives back what was encoded, and nothing else is the spelling of it.
pub proof fn spellings_are_unique(bytes: Seq<u8>, value: Seq<char>)
    requires
        lower_hex_bytes(value, bytes.len()) == Some(bytes),
    ensures
        value == text::lower_hex(bytes),
{
    let spelled = text::lower_hex(bytes);
    assert(value.len() == spelled.len());
    assert forall|i: int| 0 <= i < value.len() implies value[i] == spelled[i] by {
        let at = i / 2;
        assert(2 * at == i || 2 * at + 1 == i);
        let high = value[2 * at];
        let low = value[2 * at + 1];
        assert(text::is_lower_hex_digit(high) && text::is_lower_hex_digit(low));
        let h = crypto::hex_value(high);
        let l = crypto::hex_value(low);
        assert(0 <= h < 16 && 0 <= l < 16);
        assert(crypto::hex_bytes(value)[at] == (16 * h + l) as u8);
        assert(bytes[at] == 16 * h + l);
        assert((16 * h + l) / 16 == h && (16 * h + l) % 16 == l);
        assert(text::hex_digit(h) == high);
        assert(text::hex_digit(l) == low);
        assert(spelled[2 * at] == text::hex_digit(bytes[at] as int / 16));
        assert(spelled[2 * at + 1] == text::hex_digit(bytes[at] as int % 16));
    }
    assert(value =~= spelled);
}

proof fn lemma_spelled(bytes: Seq<u8>)
    ensures
        lower_hex_bytes(text::lower_hex(bytes), bytes.len()) == Some(bytes),
{
    let spelled = text::lower_hex(bytes);
    text::lemma_lower_hex_digits(bytes);
    let read = crypto::hex_bytes(spelled);
    assert forall|at: int| 0 <= at < bytes.len() implies read[at] == bytes[at] by {
        let high = bytes[at] as int / 16;
        let low = bytes[at] as int % 16;
        assert((2 * at) / 2 == at && (2 * at) % 2 == 0);
        assert((2 * at + 1) / 2 == at && (2 * at + 1) % 2 == 1);
        assert(spelled[2 * at] == text::hex_digit(high));
        assert(spelled[2 * at + 1] == text::hex_digit(low));
        assert(crypto::hex_value(text::hex_digit(high)) == high);
        assert(crypto::hex_value(text::hex_digit(low)) == low);
        assert(16 * high + low == bytes[at]);
    }
    assert(read =~= bytes);
}

/// The key that a device presents, or why it is refused.
pub open spec fn device_public_key(value: Seq<char>) -> Result<Seq<u8>, ApiError> {
    match lower_hex_bytes(value, 32) {
        None => Err(
            ApiError::bad_request(
                "invalid_device_public_key",
                "Ed25519 设备公钥必须是 32 字节规范小写十六进制",
            ),
        ),
        Some(key) => point_of(key, crypto::ed25519_point(key)),
    }
}

/// A key whose bytes are a point of the curve, or the error that they are none.
pub open spec fn point_of(key: Seq<u8>, is_point: bool) -> Result<Seq<u8>, ApiError> {
    if is_point {
        Ok(key)
    } else {
        Err(
            ApiError::bad_request(
                "invalid_device_public_key",
                "Ed25519 设备公钥不是有效曲线点",
            ),
        )
    }
}

/// Takes a key whose bytes must be a point of the curve.
pub fn require_point(key: [u8; 32], is_point: bool) -> (checked: Result<[u8; 32], ApiError>)
    ensures
        match checked {
            Ok(checked) => point_of(key@, is_point) == Ok::<Seq<u8>, ApiError>(checked@),
            Err(refused) => point_of(key@, is_point) == Err::<Seq<u8>, ApiError>(refused),
        },
{
    if is_point {
        Ok(key)
    } else {
        Err(
            ApiError::bad_request(
                "invalid_device_public_key",
                "Ed25519 设备公钥不是有效曲线点",
            ),
        )
    }
}

/// Checks the public key of a device: the one spelling of a point of the curve.
pub fn validate_device_public_key(public_key: &str) -> (key: Result<[u8; 32], ApiError>)
    ensures
        match key {
            Ok(key) => device_public_key(public_key@) == Ok::<Seq<u8>, ApiError>(key@),
            Err(refused) => device_public_key(public_key@) == Err::<Seq<u8>, ApiError>(refused),
        },
{
    match decode_lower_hex(public_key, DEVICE_PUBLIC_KEY_BYTES) {
        Some(bytes) => match text::array_32(bytes.as_slice()) {
            Some(key) => {
                let is_point = crypto::ed25519_key_is_valid(&key);
                require_point(key, is_point)
            },
            None => Err(
                ApiError::bad_request(
                    "invalid_device_public_key",
                    "Ed25519 设备公钥必须是 32 字节规范小写十六进制",
                ),
            ),
        },
        None => Err(
            ApiError::bad_request(
                "invalid_device_public_key",
                "Ed25519 设备公钥必须是 32 字节规范小写十六进制",
            ),
        ),
    }
}

/// What a proof of possession is for.
#[derive(Clone, Copy, Debug, PartialEq, Eq, Structural)]
pub enum ProofPurpose {
    Login,
    Refresh,
}

/// A proof that a device holds its private key, with what is stored of the key.
/// `supported_algorithm` is the name that the device protocol gives to Ed25519;
/// `derived_fingerprint` and `message` are what it derives: from the key, and from the
/// key, the challenge and what the proof is for.
pub struct KeyProof<'a> {
    pub public_key: &'a str,
    pub fingerprint: &'a str,
    pub algorithm: &'a str,
    pub supported_algorithm: &'a str,
    pub challenge: &'a str,
    pub challenge_bytes: usize,
    pub signature: &'a str,
    pub derived_fingerprint: &'a str,
    pub message: &'a [u8],
}

pub open spec fn proof_message(purpose: ProofPurpose, login: &'static str, refresh: &'static str) -> ApiError {
    match purpose {
        ProofPurpose::Login => ApiError::authentication(login),
        ProofPurpose::Refresh => ApiError::authentication(refresh),
    }
}

fn refused_proof(purpose: ProofPurpose, login: &'static str, refresh: &'static str) -> (refused: ApiError)
    ensures
        refused == proof_message(purpose, login, refresh),
{
    match purpose {
        ProofPurpose::Login => ApiError::authentication(login),
        ProofPurpose::Refresh => ApiError::authentication(refresh),
    }
}

/// Why the stored parts of a proof are refused, before its signature is looked at.
pub open spec fn proof_parts_refusal(purpose: ProofPurpose, proof: KeyProof) -> Option<ApiError> {
    if proof.algorithm@ != proof.supported_algorithm@ {
        Some(
            proof_message(
                purpose,
                "设备登录流程使用了不受支持的密钥算法，请重新发起登录",
                "刷新会话绑定了不受支持的设备密钥算法，请重新登录",
            ),
        )
    } else if lower_hex_bytes(proof.public_key@, 32) is None {
        Some(
            proof_message(
                purpose,
                "设备登录公钥记录无效，请重新发起登录",
                "刷新会话的设备公钥记录无效，请重新登录",
            ),
        )
    } else if proof.derived_fingerprint@ != proof.fingerprint@ {
        Some(
            proof_message(
                purpose,
                "设备登录公钥与指纹绑定不一致，请重新发起登录",
                "刷新会话的设备公钥与指纹不一致，请重新登录",
            ),
        )
    } else if lower_hex_bytes(proof.challenge@, proof.challenge_bytes as nat) is None {
        Some(
            proof_message(
                purpose,
                "设备登录持有证明挑战无效，请重新发起登录",
                "刷新会话缺少有效一次性 challenge，请重新登录",
            ),
        )
    } else if lower_hex_bytes(proof.signature@, 64) is None {
        Some(
            proof_message(
                purpose,
                "设备密钥持有证明格式无效",
                "刷新会话的设备私钥持有证明格式无效",
            ),
        )
    } else {
        None
    }
}

/// Why a proof is refused whose parts are in order, out of whether its key is a point
/// of the curve and whether its signature verifies.
pub open spec fn signature_refusal(purpose: ProofPurpose, is_point: bool, verified: bool) -> Option<
    ApiError,
> {
    if !is_point {
        Some(
            proof_message(
                purpose,
                "设备登录公钥记录无效，请重新发起登录",
                "刷新会话的设备公钥记录无效，请重新登录",
            ),
        )
    } else if !verified {
        Some(
            proof_message(
                purpose,
                "设备密钥持有证明无效",
                "刷新会话的设备私钥持有证明无效",
            ),
        )
    } else {
        None
    }
}

pub open spec fn proof_refusal(purpose: ProofPurpose, proof: KeyProof) -> Option<ApiError> {
    match proof_parts_refusal(purpose, proof) {
        Some(refused) => Some(refused),
        None => {
            let key = lower_hex_bytes(proof.public_key@, 32)->0;
            let signature = lower_hex_bytes(proof.signature@, 64)->0;
            signature_refusal(
                purpose,
                crypto::ed25519_point(key),
                crypto::ed25519_verified(key, proof.message@, signature),
            )
        },
    }
}

/// Judges the signature of a proof.
pub fn judge_signature(purpose: ProofPurpose, is_point: bool, verified: bool) -> (judged: Result<
    (),
    ApiError,
>)
    ensures
        judged == error::unless(signature_refusal(purpose, is_point, verified), ()),
{
    if !is_point {
        return Err(
            refused_proof(
                purpose,
                "设备登录公钥记录无效，请重新发起登录",
                "刷新会话的设备公钥记录无效，请重新登录",
            ),
        );
    }
    if !verified {
        return Err(
            refused_proof(
                purpose,
                "设备密钥持有证明无效",
                "刷新会话的设备私钥持有证明无效",
            ),
        );
    }
    Ok(())
}

fn verify_key_proof(purpose: ProofPurpose, proof: &KeyProof) -> (verified: Result<(), ApiError>)
    requires
        proof.challenge_bytes <= usize::MAX / 4,
    ensures
        verified == error::unless(proof_refusal(purpose, *proof), ()),
{
    if !text::same_text(proof.algorithm, proof.supported_algorithm) {
        return Err(
            refused_proof(
                purpose,
                "设备登录流程使用了不受支持的密钥算法，请重新发起登录",
                "刷新会话绑定了不受支持的设备密钥算法，请重新登录",
            ),
        );
    }
    let bad_key = refused_proof(
        purpose,
        "设备登录公钥记录无效，请重新发起登录",
        "刷新会话的设备公钥记录无效，请重新登录",
    );
    let key_bytes = match decode_lower_hex(proof.public_key, DEVICE_PUBLIC_KEY_BYTES) {
        Some(bytes) => bytes,
        None => {
            return Err(bad_key);
        },
    };
    let key = match text::array_32(key_bytes.as_slice()) {
        Some(key) => key,
        None => {
            return Err(bad_key);
        },
    };
    if !text::same_text(proof.derived_fingerprint, proof.fingerprint) {
        return Err(
            refused_proof(
                purpose,
                "设备登录公钥与指纹绑定不一致，请重新发起登录",
                "刷新会话的设备公钥与指纹不一致，请重新登录",
            ),
        );
    }
    if decode_lower_hex(proof.challenge, proof.challenge_bytes).is_none() {
        return Err(
            refused_proof(
                purpose,
                "设备登录持有证明挑战无效，请重新发起登录",
                "刷新会话缺少有效一次性 challenge，请重新登录",
            ),
        );
    }
    let bad_signature = refused_proof(
        purpose,
        "设备密钥持有证明格式无效",
        "刷新会话的设备私钥持有证明格式无效",
    );
    let signature_bytes = match decode_lower_hex(proof.signature, DEVICE_KEY_SIGNATURE_BYTES) {
        Some(bytes) => bytes,
        None => {
            return Err(bad_signature);
        },
    };
    let signature = match text::array_64(signature_bytes.as_slice()) {
        Some(signature) => signature,
        None => {
            return Err(bad_signature);
        },
    };
    let is_point = crypto::ed25519_key_is_valid(&key);
    let verified = is_point && crypto::ed25519_verify_strict(&key, proof.message, &signature);
    judge_signature(purpose, is_point, verified)
}

/// Checks the proof with which a device logs in.
pub fn verify_device_key_proof(proof: &KeyProof) -> (verified: Result<(), ApiError>)
    requires
        proof.challenge_bytes <= usize::MAX / 4,
    ensures
        verified == error::unless(proof_refusal(ProofPurpose::Login, *proof), ()),
{
    verify_key_proof(ProofPurpose::Login, proof)
}

/// Checks the proof with which a device renews its session.
pub fn verify_refresh_key_proof(proof: &KeyProof) -> (verified: Result<(), ApiError>)
    requires
        proof.challenge_bytes <= usize::MAX / 4,
    ensures
        verified == error::unless(proof_refusal(ProofPurpose::Refresh, *proof), ()),
{
    verify_key_proof(ProofPurpose::Refresh, proof)
}

/// A proof that is accepted carries a signature that verifies over its very message,
/// under the key that its fingerprint is bound to.
pub proof fn accepted_proofs_are_signed(purpose: ProofPurpose, proof: KeyProof)
    requires
        proof_refusal(purpose, proof) is None,
    ensures
        proof.derived_fingerprint@ == proof.fingerprint@,
        lower_hex_bytes(proof.public_key@, 32) is Some,
        lower_hex_bytes(proof.signature@, 64) is Some,
        crypto::ed25519_verified(
            lower_hex_bytes(proof.public_key@, 32)->0,
            proof.message@,
            lower_hex_bytes(proof.signature@, 64)->0,
        ),
{
}

/// A proof is accepted exactly if nothing is wrong with it: the algorithm is supported, the
/// key is a point that is spelled in lower case, the fingerprint is that of the key, the
/// challenge and the signature are spelled in lower case, and the signature verifies under
/// that key over that message. So a signature over the message of another flow, another
/// challenge or another key is refused unless it verifies over this one too.
pub proof fn proofs_are_accepted_exactly_if_sound(purpose: ProofPurpose, proof: KeyProof)
    ensures
        proof_refusal(purpose, proof) is None <==> {
            &&& proof.algorithm@ == proof.supported_algorithm@
            &&& text::is_lower_hex(proof.public_key@, 64)
            &&& proof.fingerprint@ == proof.derived_fingerprint@
            &&& text::is_lower_hex(proof.challenge@, 2 * proof.challenge_bytes as nat)
            &&& text::is_lower_hex(proof.signature@, 128)
            &&& crypto::ed25519_point(crypto::hex_bytes(proof.public_key@))
            &&& crypto::ed25519_verified(
                crypto::hex_bytes(proof.public_key@),
                proof.message@,
                crypto::hex_bytes(proof.signature@),
            )
        },
{
}

/// Spells a challenge.
pub fn refresh_challenge(bytes: &[u8]) -> (challenge: String)
    requires
        bytes@.len() <= usize::MAX / 4,
    ensures
        challenge@ == text::lower_hex(bytes@),
        lower_hex_bytes(challenge@, bytes@.len()) == Some(bytes@),
{
    proof {
        lemma_spelled(bytes@);
    }
    crypto::hex_encode(bytes)
}

/// Makes a random challenge of some bytes. It decodes again, to as many bytes. Only a
/// system that gives no random bytes makes this fail.
pub fn new_refresh_challenge(length: usize) -> (challenge: Result<String, ApiError>)
    requires
        length <= usize::MAX / 4,
    ensures
        match challenge {
            Ok(challenge) => lower_hex_bytes(challenge@, length as nat) is Some,
            Err(refused) => refused == ApiError::internal(),
        },
{
    match crypto::random_bytes(length) {
        Some(bytes) => Ok(refresh_challenge(bytes.as_slice())),
        None => Err(ApiError::internal()),
    }
}

/// What a flow is started with. Times are nanoseconds since the Unix epoch.
#[derive(Clone, Copy, Debug, PartialEq, Eq, Structural)]
pub struct FlowTiming {
    pub expires_at: i128,
    pub interval_seconds: i32,
}

/// When a flow that starts now ends, and how often it is polled: at most once a second.
pub fn flow_timing(now: i128, expires_in_seconds: u64, interval_seconds: u64) -> (timing: Result<
    FlowTiming,
    ApiError,
>)
    requires
        clock::is_moment(now),
    ensures
        match timing {
            Ok(timing) => {
                &&& clock::moment_after(now, expires_in_seconds as int) == Ok::<i128, ApiError>(
                    timing.expires_at,
                )
                &&& interval_seconds <= i32::MAX
                &&& timing.interval_seconds == if interval_seconds < 1 {
                    1
                } else {
                    interval_seconds as int
                }
            },
            Err(refused) => {
                &&& refused == ApiError::internal()
                &&& clock::moment_after(now, expires_in_seconds as int) is Err || interval_seconds
                    > i32::MAX
            },
        },
{
    let expires_at: i128 = clock::expiry(now, expires_in_seconds)?;
    if interval_seconds > i32::MAX as u64 {
        return Err(ApiError::internal());
    }
    let interval: i32 = interval_seconds as i32;
    Ok(
        FlowTiming {
            expires_at,
            interval_seconds: if interval < 1 {
                1
            } else {
                interval
            },
        },
    )
}

pub open spec fn flow_refusal(
    provider: Seq<char>,
    current_provider: Seq<char>,
    status: Seq<char>,
) -> Option<ApiError> {
    if provider != current_provider {
        Some(ApiError::conflict("auth_provider_changed", "认证提供者已经变更，请重新发起登录"))
    } else if status != "pending"@ {
        Some(ApiError::conflict("device_flow_completed", "设备登录流程已经结束，请重新发起登录"))
    } else {
        None
    }
}

/// Checks that a flow is polled at the service that it was started at, and is open.
pub fn check_flow(provider: &str, current_provider: &str, status: &str) -> (checked: Result<
    (),
    ApiError,
>)
    ensures
        checked == error::unless(flow_refusal(provider@, current_provider@, status@), ()),
{
    if !text::same_text(provider, current_provider) {
        return Err(
            ApiError::conflict("auth_provider_changed", "认证提供者已经变更，请重新发起登录"),
        );
    }
    if !text::same_text(status, "pending") {
        return Err(
            ApiError::conflict(
                "device_flow_completed",
                "设备登录流程已经结束，请重新发起登录",
            ),
        );
    }
    Ok(())
}

/// What a poll of an open flow comes to.
#[derive(Clone, Copy, Debug, PartialEq, Eq, Structural)]
pub enum PollStep {
    /// The flow is over: it is marked as expired.
    Expire,
    /// The last poll was too short a time ago: the device is told to wait.
    Wait,
    /// The service is asked.
    Ask,
}

pub open spec fn poll_step(
    now: i128,
    expires_at: i128,
    interval_seconds: i32,
    last_polled_at: Option<i128>,
) -> PollStep {
    if expires_at <= now {
        PollStep::Expire
    } else if last_polled_at is Some && now - last_polled_at->0 < interval_seconds
        * clock::NANOS_PER_SECOND {
        PollStep::Wait
    } else {
        PollStep::Ask
    }
}

/// Decides what a poll comes to.
pub fn plan_poll(
    now: i128,
    expires_at: i128,
    interval_seconds: i32,
    last_polled_at: Option<i128>,
) -> (step: PollStep)
    requires
        clock::is_moment(now),
        last_polled_at matches Some(last) ==> clock::is_moment(last),
    ensures
        step == poll_step(now, expires_at, interval_seconds, last_polled_at),
{
    if expires_at <= now {
        return PollStep::Expire;
    }
    match last_polled_at {
        Some(last) => {
            let waited: i128 = now - last;
            if waited < interval_seconds as i128 * clock::NANOS_PER_SECOND {
                PollStep::Wait
            } else {
                PollStep::Ask
            }
        },
        None => PollStep::Ask,
    }
}

/// The service is not asked more often than once in an interval, and never about a flow
/// that is over.
pub proof fn polls_are_paced(
    now: i128,
    expires_at: i128,
    interval_seconds: i32,
    last_polled_at: i128,
)
    requires
        poll_step(now, expires_at, interval_seconds, Some(last_polled_at)) == PollStep::Ask,
    ensures
        now >= last_polled_at + interval_seconds * clock::NANOS_PER_SECOND,
        now < expires_at,
{
}

/// What the service answers about a flow.
#[derive(Clone, Copy, Debug, PartialEq, Eq, Structural)]
pub enum ProviderPoll {
    Pending,
    SlowDown,
    Denied,
    Expired,
    Authorized,
}

/// What follows from an answer of the service.
#[derive(Debug, PartialEq, Eq)]
pub enum PollAnswer {
    /// The device is told to wait this long.
    Pending { interval: i32 },
    /// The device is told to wait this long from now on.
    SlowDown { interval: i32 },
    /// The flow ends in this status, with an error.
    End { status: &'static str, error: ApiError },
    /// The user agreed: the flow can be completed.
    Complete,
}

/// Decides what follows from an answer of the service.
pub fn answer_poll(answer: ProviderPoll, interval_seconds: i32) -> (followed: PollAnswer)
    ensures
        followed == match answer {
            ProviderPoll::Pending => PollAnswer::Pending { interval: interval_seconds },
            ProviderPoll::SlowDown => PollAnswer::SlowDown {
                interval: if interval_seconds + 5 > i32::MAX {
                    i32::MAX
                } else {
                    (interval_seconds + 5) as i32
                },
            },
            ProviderPoll::Denied => PollAnswer::End {
                status: "denied",
                error: ApiError::authentication("用户拒绝了设备登录"),
            },
            ProviderPoll::Expired => PollAnswer::End {
                status: "expired",
                error: ApiError::authentication("设备验证码已经过期"),
            },
            ProviderPoll::Authorized => PollAnswer::Complete,
        },
{
    match answer {
        ProviderPoll::Pending => PollAnswer::Pending { interval: interval_seconds },
        ProviderPoll::SlowDown => PollAnswer::SlowDown {
            interval: if interval_seconds > i32::MAX - 5 {
                i32::MAX
            } else {
                interval_seconds + 5
            },
        },
        ProviderPoll::Denied => PollAnswer::End {
            status: "denied",
            error: ApiError::authentication("用户拒绝了设备登录"),
        },
        ProviderPoll::Expired => PollAnswer::End {
            status: "expired",
            error: ApiError::authentication("设备验证码已经过期"),
        },
        ProviderPoll::Authorized => PollAnswer::Complete,
    }
}

/// What completing a flow comes to, once nobody else can complete it.
#[derive(Clone, Copy, Debug, PartialEq, Eq, Structural)]
pub enum CompletionStep {
    /// The flow ran out: it is marked as expired.
    Expire,
    /// The device is logged in.
    Complete,
}

pub open spec fn completion_step(status: Seq<char>, expires_at: i128, now: i128) -> Result<
    CompletionStep,
    ApiError,
> {
    if status != "pending"@ {
        Err(ApiError::conflict("device_flow_completed", "设备登录流程已经被另一请求完成"))
    } else if expires_at <= now {
        Ok(CompletionStep::Expire)
    } else {
        Ok(CompletionStep::Complete)
    }
}

/// Decides whether a flow can still be completed.
pub fn plan_completion(status: &str, expires_at: i128, now: i128) -> (step: Result<
    CompletionStep,
    ApiError,
>)
    ensures
        step == completion_step(status@, expires_at, now),
{
    if !text::same_text(status, "pending") {
        return Err(ApiError::conflict("device_flow_completed", "设备登录流程已经被另一请求完成"));
    }
    if expires_at <= now {
        return Ok(CompletionStep::Expire);
    }
    Ok(CompletionStep::Complete)
}

/// What a new account is given. Only a local installation for development gives
/// anything, and no account gets it twice.
pub fn initial_grant(local_development: bool, configured_micro: i64, account_is_new: bool) -> (grant:
    Option<i64>)
    ensures
        grant == if local_development && account_is_new && configured_micro > 0 {
            Some(configured_micro)
        } else {
            None
        },
{
    if local_development && account_is_new && configured_micro > 0 {
        Some(configured_micro)
    } else {
        None
    }
}

/// What a user is told about a device and its nodes.
pub struct DeviceStatus {
    pub trust_level: TrustLevel,
    pub device_key_revoked: Option<bool>,
    pub registered_nodes: u64,
    pub best_node_trust_level: Option<TrustLevel>,
}

/// Reports on a device. Nothing attests the device itself, so that it is never trusted
/// for the sake of the nodes of its user.
pub fn device_status(
    has_fingerprint: bool,
    revoked: bool,
    registered_nodes: i64,
    best_node_trust: &Option<String>,
) -> (status: Result<DeviceStatus, ApiError>)
    ensures
        match status {
            Ok(status) => {
                &&& status.trust_level == TrustLevel::Unverified
                &&& status.device_key_revoked == if has_fingerprint {
                    Some(revoked)
                } else {
                    None
                }
                &&& status.registered_nodes == registered_nodes
                &&& match *best_node_trust {
                    Some(name) => status.best_node_trust_level matches Some(trust) && trust.name()
                        == name@,
                    None => status.best_node_trust_level is None,
                }
            },
            Err(refused) => {
                &&& refused == ApiError::internal()
                &&& registered_nodes < 0 || (*best_node_trust matches Some(name) && forall|
                    trust: TrustLevel,
                | #[trigger]
                    trust.name() != name@)
            },
        },
{
    if registered_nodes < 0 {
        return Err(ApiError::internal());
    }
    let best_node_trust_level = match best_node_trust {
        Some(name) => match parse_db_trust_level(name.as_str()) {
            Ok(trust) => Some(trust),
            Err(refused) => {
                return Err(refused);
            },
        },
        None => None,
    };
    Ok(
        DeviceStatus {
            trust_level: TrustLevel::Unverified,
            device_key_revoked: if has_fingerprint {
                Some(revoked)
            } else {
                None
            },
            registered_nodes: registered_nodes as u64,
            best_node_trust_level,
        },
    )
}

/// What the database holds of a device flow. Times are nanoseconds since the Unix epoch.
pub struct DeviceFlow<'a> {
    pub provider: &'a str,
    pub status: &'a str,
    pub expires_at: i128,
    pub interval_seconds: i32,
    pub last_polled_at: Option<i128>,
    pub device_public_key: Option<&'a str>,
    pub device_key_fingerprint: Option<&'a str>,
    pub device_key_algorithm: Option<&'a str>,
    pub device_key_challenge: Option<&'a str>,
}

/// What a device polls with, and what the device protocol makes of its flow.
pub struct PollProof<'a> {
    pub signature: &'a str,
    pub supported_algorithm: &'a str,
    pub challenge_bytes: usize,
    pub derived_fingerprint: &'a str,
    pub message: &'a [u8],
}

pub open spec fn poll_answer(
    flow: Option<DeviceFlow>,
    current_provider: Seq<char>,
    poll: PollProof,
    now: i128,
) -> Result<PollStep, ApiError> {
    match flow {
        None => Err(ApiError::not_found("设备登录流程")),
        Some(flow) => match (
            flow_refusal(flow.provider@, current_provider, flow.status@),
            flow.device_public_key,
            flow.device_key_fingerprint,
            flow.device_key_algorithm,
            flow.device_key_challenge,
        ) {
            (Some(refused), _, _, _, _) => Err(refused),
            (None, None, _, _, _) => Err(
                ApiError::authentication("设备登录流程缺少密钥绑定，请重新发起登录"),
            ),
            (None, _, None, _, _) => Err(
                ApiError::authentication("设备登录流程缺少密钥指纹，请重新发起登录"),
            ),
            (None, _, _, None, _) => Err(
                ApiError::authentication("设备登录流程缺少密钥算法，请重新发起登录"),
            ),
            (None, _, _, _, None) => Err(
                ApiError::authentication("设备登录流程缺少持有证明挑战，请重新发起登录"),
            ),
            (None, Some(public_key), Some(fingerprint), Some(algorithm), Some(challenge)) => {
                let proof = KeyProof {
                    public_key,
                    fingerprint,
                    algorithm,
                    supported_algorithm: poll.supported_algorithm,
                    challenge,
                    challenge_bytes: poll.challenge_bytes,
                    signature: poll.signature,
                    derived_fingerprint: poll.derived_fingerprint,
                    message: poll.message,
                };
                match proof_refusal(ProofPurpose::Login, proof) {
                    Some(refused) => Err(refused),
                    None => Ok(
                        poll_step(
                            now,
                            flow.expires_at,
                            flow.interval_seconds,
                            flow.last_polled_at,
                        ),
                    ),
                }
            },
        },
    }
}

/// Takes a poll of a device: of a flow that is open with the present service, and signed
/// with the key that the flow is bound to. `None` stands for a flow that is not there.
pub fn auth_device_poll(
    flow: &Option<DeviceFlow>,
    current_provider: &str,
    poll: &PollProof,
    now: i128,
) -> (answer: Result<PollStep, ApiError>)
    requires
        clock::is_moment(now),
        *flow matches Some(flow) ==> (flow.last_polled_at matches Some(last) ==> clock::is_moment(
            last,
        )),
        poll.challenge_bytes <= usize::MAX / 4,
    ensures
        answer == poll_answer(*flow, current_provider@, *poll, now),
{
    match flow {
        None => Err(ApiError::not_found("设备登录流程")),
        Some(flow) => {
            check_flow(flow.provider, current_provider, flow.status)?;
            let public_key = match flow.device_public_key {
                Some(public_key) => public_key,
                None => {
                    return Err(
                        ApiError::authentication("设备登录流程缺少密钥绑定，请重新发起登录"),
                    );
                },
            };
            let fingerprint = match flow.device_key_fingerprint {
                Some(fingerprint) => fingerprint,
                None => {
                    return Err(
                        ApiError::authentication("设备登录流程缺少密钥指纹，请重新发起登录"),
                    );
                },
            };
            let algorithm = match flow.device_key_algorithm {
                Some(algorithm) => algorithm,
                None => {
                    return Err(
                        ApiError::authentication("设备登录流程缺少密钥算法，请重新发起登录"),
                    );
                },
            };
            let challenge = match flow.device_key_challenge {
                Some(challenge) => challenge,
                None => {
                    return Err(
                        ApiError::authentication(
                            "设备登录流程缺少持有证明挑战，请重新发起登录",
                        ),
                    );
                },
            };
            verify_device_key_proof(
                &KeyProof {
                    public_key,
                    fingerprint,
                    algorithm,
                    supported_algorithm: poll.supported_algorithm,
                    challenge,
                    challenge_bytes: poll.challenge_bytes,
                    signature: poll.signature,
                    derived_fingerprint: poll.derived_fingerprint,
                    message: poll.message,
                },
            )?;
            Ok(plan_poll(now, flow.expires_at, flow.interval_seconds, flow.last_polled_at))
        },
    }
}

/// The service is asked only about an open flow, for a device that signed with the key
/// that the flow is bound to.
pub proof fn polls_are_signed(
    flow: DeviceFlow,
    current_provider: Seq<char>,
    poll: PollProof,
    now: i128,
)
    requires
        poll_answer(Some(flow), current_provider, poll, now) is Ok,
    ensures
        flow.status@ == "pending"@,
        flow.provider@ == current_provider,
        flow.device_public_key is Some,
        lower_hex_bytes(flow.device_public_key->0@, 32) is Some,
        lower_hex_bytes(poll.signature@, 64) is Some,
        crypto::ed25519_verified(
            lower_hex_bytes(flow.device_public_key->0@, 32)->0,
            poll.message@,
            lower_hex_bytes(poll.signature@, 64)->0,
        ),
{
}

/// What is left of a flow that was completed: it is authorised, and its challenge is gone.
pub open spec fn completes_flow(after: DeviceFlow, before: DeviceFlow) -> bool {
    &&& after.provider@ == before.provider@
    &&& after.status@ == "authorized"@
    &&& after.device_key_challenge is None
}

/// Tokens are handed out at most once. A flow that was completed was open, had not run out,
/// and was polled under the signature of its own key; from then on every poll of it, by
/// whomever and whenever, is told that it is over, and it is not completed again.
pub proof fn tokens_are_handed_out_once(
    flow: DeviceFlow,
    current_provider: Seq<char>,
    poll: PollProof,
    now: i128,
    completed_at: i128,
    after: DeviceFlow,
    later_poll: PollProof,
    later: i128,
)
    requires
        poll_answer(Some(flow), current_provider, poll, now) == Ok::<PollStep, ApiError>(
            PollStep::Ask,
        ),
        completion_step(flow.status@, flow.expires_at, completed_at) == Ok::<
            CompletionStep,
            ApiError,
        >(CompletionStep::Complete),
        completes_flow(after, flow),
    ensures
        flow.status@ == "pending"@,
        now < flow.expires_at && completed_at < flow.expires_at,
        crypto::ed25519_verified(
            lower_hex_bytes(flow.device_public_key->0@, 32)->0,
            poll.message@,
            lower_hex_bytes(poll.signature@, 64)->0,
        ),
        poll_answer(Some(after), current_provider, later_poll, later) == Err::<PollStep, ApiError>(
            ApiError::conflict(
                "device_flow_completed",
                "设备登录流程已经结束，请重新发起登录",
            ),
        ),
        completion_step(after.status@, after.expires_at, later) == Err::<CompletionStep, ApiError>(
            ApiError::conflict("device_flow_completed", "设备登录流程已经被另一请求完成"),
        ),
{
    reveal_strlit("pending");
    reveal_strlit("authorized");
    assert("pending"@[0] == 'p');
    assert("authorized"@[0] == 'a');
}

/// A key of a device is taken exactly if it is 64 hexadecimal digits in lower case that spell a
/// point of the curve.
pub proof fn device_keys_are_points(value: Seq<char>, key: Seq<u8>)
    ensures
        device_public_key(value) == Ok::<Seq<u8>, ApiError>(key) <==> {
            &&& value.len() == 64
            &&& forall|i: int|
                0 <= i < 64 ==> '0' <= #[trigger] value[i] <= '9' || 'a' <= value[i] <= 'f'
            &&& key == crypto::hex_bytes(value)
            &&& crypto::ed25519_point(key)
        },
{
}

/// A signature is accepted exactly if its key is a point and the signature holds.
pub proof fn signatures_are_judged(purpose: ProofPurpose, is_point: bool, verified: bool)
    ensures
        signature_refusal(purpose, is_point, verified) is None <==> is_point && verified,
        signature_refusal(purpose, is_point, verified) matches Some(refused) ==> refused
            is Authentication,
{
}

/// A flow goes on exactly if it waits, with the provider that it began with.
pub proof fn waiting_flows_go_on(
    provider: Seq<char>,
    current_provider: Seq<char>,
    status: Seq<char>,
)
    ensures
        flow_refusal(provider, current_provider, status) is None <==> provider == current_provider
            && status == "pending"@,
        provider != current_provider ==> (flow_refusal(provider, current_provider, status)
            matches Some(ApiError::Conflict { code, .. }) && code == "auth_provider_changed"),
        provider == current_provider && status != "pending"@ ==> (flow_refusal(
            provider,
            current_provider,
            status,
        ) matches Some(ApiError::Conflict { code, .. }) && code == "device_flow_completed"),
{
}

/// A device that polls in time and not too soon has the provider asked; one that comes too soon
/// waits; and one that comes too late has its flow ended.
pub proof fn timely_polls_are_asked(
    now: i128,
    expires_at: i128,
    interval_seconds: i32,
    last_polled_at: Option<i128>,
)
    ensures
        poll_step(now, expires_at, interval_seconds, last_polled_at) == PollStep::Expire <==> now
            >= expires_at,
        poll_step(now, expires_at, interval_seconds, last_polled_at) == PollStep::Wait <==> now
            < expires_at && (last_polled_at matches Some(last) && now < last + interval_seconds
            * 1_000_000_000),
        poll_step(now, expires_at, interval_seconds, last_polled_at) == PollStep::Ask <==> now
            < expires_at && (last_polled_at matches Some(last) ==> now >= last + interval_seconds
            * 1_000_000_000),
{
}

/// A flow is completed exactly if it still waits and is not over.
pub proof fn waiting_flows_are_completed(status: Seq<char>, expires_at: i128, now: i128)
    ensures
        completion_step(status, expires_at, now) == Ok::<CompletionStep, ApiError>(
            CompletionStep::Complete,
        ) <==> status == "pending"@ && now < expires_at,
        completion_step(status, expires_at, now) == Ok::<CompletionStep, ApiError>(
            CompletionStep::Expire,
        ) <==> status == "pending"@ && now >= expires_at,
        completion_step(status, expires_at, now) is Err <==> status != "pending"@,
{
}

/// A poll is answered exactly if its flow is known, waits with the present provider and holds a
/// whole key, and if the proof is signed by that key over the challenge of the flow; the pace
/// then decides what follows.
pub proof fn signed_polls_are_answered(
    flow: DeviceFlow,
    current_provider: Seq<char>,
    poll: PollProof,
    now: i128,
)
    ensures
        poll_answer(Some(flow), current_provider, poll, now) is Ok <==> {
            &&& flow.provider@ == current_provider
            &&& flow.status@ == "pending"@
            &&& flow.device_key_algorithm matches Some(algorithm) && algorithm@
                == poll.supported_algorithm@
            &&& flow.device_key_fingerprint matches Some(fingerprint) && fingerprint@
                == poll.derived_fingerprint@
            &&& flow.device_key_challenge matches Some(challenge) && text::is_lower_hex(
                challenge@,
                2 * poll.challenge_bytes as nat,
            )
            &&& flow.device_public_key matches Some(public_key) && text::is_lower_hex(
                public_key@,
                64,
            ) && crypto::ed25519_point(crypto::hex_bytes(public_key@)) && text::is_lower_hex(
                poll.signature@,
                128,
            ) && crypto::ed25519_verified(
                crypto::hex_bytes(public_key@),
                poll.message@,
                crypto::hex_bytes(poll.signature@),
            )
        },
        poll_answer(Some(flow), current_provider, poll, now) matches Ok(step) ==> step == poll_step(
            now,
            flow.expires_at,
            flow.interval_seconds,
            flow.last_polled_at,
        ),
        poll_answer(None, current_provider, poll, now) == Err::<PollStep, ApiError>(
            ApiError::NotFound { resource: "设备登录流程" },
        ),
{
}

} // verus!
