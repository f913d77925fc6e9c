//! Regulated jobs: a route is prepared on a node with hardware evidence, and a job
//! consumes it once. A Regulated job never falls back to Standard.

use vstd::prelude::*;

use crate::billing::{BillingQuote, JobBillingSnapshot};
use crate::clock;
use crate::clock::NANOS_PER_SECOND;
use crate::crypto;
use crate::error;
use crate::error::ApiError;
use crate::ids::Uuid;
use crate::jobs::{
    anti_abuse_refusal, assess_job_creation, billing_profile_unavailable, job_status_from_db,
    statuses_are_told_apart, AntiAbuseError, BillingSnapshot, JobStatus,
};
use crate::settlement::is_id;
use crate::text;

verus! {

/// How long a prepared route lasts at most.
pub const PREPARED_ROUTE_TTL: i128 = 120_000_000_000;

/// How long the evidence of a route must last at least.
pub const MIN_REPORT_REMAINING: i128 = 30_000_000_000;

/// A node that was silent for this long is not used.
pub const MAX_SILENCE: i128 = 90_000_000_000;

/// The fingerprint of a Regulated request: its serialised form, under a label and a
/// domain.
pub open spec fn regulated_fingerprint(domain: Seq<char>, serialized: Seq<u8>) -> Seq<char> {
    text::lower_hex(
        crypto::sha256(
            vstd::utf8::encode_utf8("MindOne regulated idempotency fingerprint v1\0"@)
                + vstd::utf8::encode_utf8(domain).push(0) + serialized,
        ),
    )
}

pub fn regulated_request_fingerprint(domain: &str, serialized_request: &[u8]) -> (fingerprint: String)
    ensures
        fingerprint@ == regulated_fingerprint(domain@, serialized_request@),
        text::is_lower_hex(fingerprint@, 64),
{
    let mut data: Vec<u8> = Vec::new();
    text::push_bytes(&mut data, "MindOne regulated idempotency fingerprint v1\0".as_bytes());
    text::push_bytes(&mut data, domain.as_bytes());
    data.push(0);
    text::push_bytes(&mut data, serialized_request);
    assert(data@ =~= vstd::utf8::encode_utf8("MindOne regulated idempotency fingerprint v1\0"@)
        + vstd::utf8::encode_utf8(domain@).push(0) + serialized_request@);
    let digest = crypto::sha256_digest(data.as_slice());
    proof {
        text::lemma_lower_hex_digits(digest@);
    }
    crypto::hex_encode(digest.as_slice())
}

/// Checks that a key which was used to prepare a route was used for this request, and
/// that its route still waits to be consumed.
pub fn check_existing_route(
    stored_fingerprint: &Option<String>,
    status: &str,
    request_fingerprint: &str,
) -> (checked: Result<(), ApiError>)
    ensures
        checked == if !text::holds(*stored_fingerprint, request_fingerprint@) {
            Err::<(), ApiError>(
                ApiError::conflict(
                    "idempotency_binding_mismatch",
                    "Regulated prepare 幂等键已绑定到不同请求内容",
                ),
            )
        } else if status@ != "prepared"@ {
            Err::<(), ApiError>(
                ApiError::conflict(
                    "regulated_route_replay",
                    "该 Regulated prepare 幂等键已消费或过期，不能生成第二个 envelope",
                ),
            )
        } else {
            Ok::<(), ApiError>(())
        },
{
    if !text::option_holds(stored_fingerprint, request_fingerprint) {
        return Err(
            ApiError::conflict(
                "idempotency_binding_mismatch",
                "Regulated prepare 幂等键已绑定到不同请求内容",
            ),
        );
    }
    if !text::same_text(status, "prepared") {
        return Err(
            ApiError::conflict(
                "regulated_route_replay",
                "该 Regulated prepare 幂等键已消费或过期，不能生成第二个 envelope",
            ),
        );
    }
    Ok(())
}

/// Checks that a key which was used to create a job was used for this route and
/// request.
pub fn check_existing_job(
    stored_route_id: Option<Uuid>,
    stored_fingerprint: &Option<String>,
    route_id: Uuid,
    request_fingerprint: &str,
) -> (checked: Result<(), ApiError>)
    ensures
        checked == if stored_route_id == Some(route_id) && text::holds(
            *stored_fingerprint,
            request_fingerprint@,
        ) {
            Ok::<(), ApiError>(())
        } else {
            Err::<(), ApiError>(
                ApiError::conflict(
                    "idempotency_binding_mismatch",
                    "Regulated 创建幂等键已绑定到不同 route 或 envelope",
                ),
            )
        },
{
    if !is_id(stored_route_id, route_id) || !text::option_holds(
        stored_fingerprint,
        request_fingerprint,
    ) {
        return Err(
            ApiError::conflict(
                "idempotency_binding_mismatch",
                "Regulated 创建幂等键已绑定到不同 route 或 envelope",
            ),
        );
    }
    Ok(())
}

/// A hardware report that a route could be prepared on. Times are nanoseconds since
/// the Unix epoch.
pub struct SelectedReport {
    pub evidence: Option<String>,
    pub issued_at: i128,
    pub verified_at: Option<i128>,
    pub tee_measurement: Option<String>,
}

pub open spec fn report_refusal(report: SelectedReport, now: i128) -> Option<ApiError> {
    match (report.evidence, report.verified_at) {
        (None, _) => Some(ApiError::attestation_unavailable("硬件报告缺少原始 evidence")),
        (_, None) => Some(ApiError::attestation_unavailable("硬件报告缺少验证时间")),
        (Some(evidence), Some(verified_at)) => if evidence@.len() == 0 || verified_at
            < report.issued_at || verified_at > now + 30 * NANOS_PER_SECOND
            || report.tee_measurement is None {
            Some(ApiError::attestation_unavailable("硬件报告结构或验证时间无效"))
        } else {
            None
        },
    }
}

/// Checks that a report can be shown to a consumer: with its evidence and its
/// measurement, and verified neither before it was issued nor in the future.
pub fn validate_selected_report(report: &SelectedReport, now: i128) -> (valid: Result<(), ApiError>)
    requires
        clock::is_moment(now),
    ensures
        valid == error::unless(report_refusal(*report, now), ()),
{
    let evidence = match &report.evidence {
        Some(evidence) => evidence,
        None => {
            return Err(ApiError::attestation_unavailable("硬件报告缺少原始 evidence"));
        },
    };
    let verified_at: i128 = match report.verified_at {
        Some(verified_at) => verified_at,
        None => {
            return Err(ApiError::attestation_unavailable("硬件报告缺少验证时间"));
        },
    };
    if evidence.as_str().is_empty() || verified_at < report.issued_at || verified_at > now + 30
        * NANOS_PER_SECOND || report.tee_measurement.is_none() {
        return Err(ApiError::attestation_unavailable("硬件报告结构或验证时间无效"));
    }
    Ok(())
}

pub open spec fn earlier(left: i128, right: i128) -> i128 {
    if left <= right {
        left
    } else {
        right
    }
}

/// When a route that is prepared now expires: with the report, with what the report
/// rests on, with the billing profile, and after two minutes, whatever comes first.
pub open spec fn route_expiry(
    now: i128,
    report_expires_at: i128,
    collateral_expires_at: i128,
    billing_valid_until: i128,
) -> Result<i128, ApiError> {
    let evidence = earlier(
        earlier((now + PREPARED_ROUTE_TTL) as i128, report_expires_at),
        collateral_expires_at,
    );
    if evidence <= now + MIN_REPORT_REMAINING {
        Err(
            ApiError::attestation_unavailable(
                "可用硬件报告剩余时间不足以安全创建 Regulated 任务",
            ),
        )
    } else if earlier(evidence, billing_valid_until) <= now + MIN_REPORT_REMAINING {
        Err(billing_profile_unavailable())
    } else {
        Ok(earlier(evidence, billing_valid_until))
    }
}

/// Decides how long a route lasts, or that too little time is left for one.
pub fn plan_route_expiry(
    now: i128,
    report_expires_at: i128,
    collateral_expires_at: i128,
    billing_valid_until: i128,
) -> (expires_at: Result<i128, ApiError>)
    requires
        clock::is_moment(now),
    ensures
        expires_at == route_expiry(
            now,
            report_expires_at,
            collateral_expires_at,
            billing_valid_until,
        ),
{
    let latest: i128 = now + PREPARED_ROUTE_TTL;
    let with_report: i128 = if latest <= report_expires_at {
        latest
    } else {
        report_expires_at
    };
    let evidence: i128 = if with_report <= collateral_expires_at {
        with_report
    } else {
        collateral_expires_at
    };
    if evidence <= now + MIN_REPORT_REMAINING {
        return Err(
            ApiError::attestation_unavailable(
                "可用硬件报告剩余时间不足以安全创建 Regulated 任务",
            ),
        );
    }
    let expires_at: i128 = if evidence <= billing_valid_until {
        evidence
    } else {
        billing_valid_until
    };
    if expires_at <= now + MIN_REPORT_REMAINING {
        return Err(billing_profile_unavailable());
    }
    Ok(expires_at)
}

/// A route outlives neither its evidence nor its billing profile, and lasts between
/// half a minute and two minutes.
pub proof fn routes_expire_with_what_they_rest_on(
    now: i128,
    report_expires_at: i128,
    collateral_expires_at: i128,
    billing_valid_until: i128,
)
    requires
        clock::is_moment(now),
        route_expiry(now, report_expires_at, collateral_expires_at, billing_valid_until) is Ok,
    ensures
        ({
            let expires_at = route_expiry(
                now,
                report_expires_at,
                collateral_expires_at,
                billing_valid_until,
            )->Ok_0;
            &&& expires_at <= report_expires_at
            &&& expires_at <= collateral_expires_at
            &&& expires_at <= billing_valid_until
            &&& now + MIN_REPORT_REMAINING < expires_at <= now + PREPARED_ROUTE_TTL
        }),
{
}

/// Two texts are the same but for the case of ASCII letters.
pub open spec fn same_but_for_case(left: Seq<char>, right: Seq<char>) -> bool {
    text::ascii_lowercase(left) == text::ascii_lowercase(right)
}

/// Some tag of a job is one that the node rejects.
pub open spec fn rejects(rejected: Seq<String>, tags: Seq<String>) -> bool {
    exists|i: int, j: int|
        0 <= i < tags.len() && 0 <= j < rejected.len() && same_but_for_case(
            (#[trigger] tags[i])@,
            (#[trigger] rejected[j])@,
        )
}

fn node_rejects(rejected: &Vec<String>, tags: &Vec<String>) -> (rejected_tag: bool)
    ensures
        rejected_tag == rejects(rejected@, tags@),
{
    let mut i: usize = 0;
    while i < tags.len()
        invariant
            i <= tags@.len(),
            forall|k: int, j: int|
                0 <= k < i && 0 <= j < rejected@.len() ==> !same_but_for_case(
                    (#[trigger] tags@[k])@,
                    (#[trigger] rejected@[j])@,
                ),
        decreases tags@.len() - i,
    {
        let tag = text::to_ascii_lowercase(tags[i].as_str());
        let mut j: usize = 0;
        while j < rejected.len()
            invariant
                i < tags@.len(),
                j <= rejected@.len(),
                tag@ == text::ascii_lowercase(tags@[i as int]@),
                forall|l: int|
                    0 <= l < j ==> !same_but_for_case(
                        tags@[i as int]@,
                        (#[trigger] rejected@[l])@,
                    ),
            decreases rejected@.len() - j,
        {
            let other = text::to_ascii_lowercase(rejected[j].as_str());
            if text::same_text(tag.as_str(), other.as_str()) {
                assert(same_but_for_case(tags@[i as int]@, rejected@[j as int]@));
                return true;
            }
            j += 1;
        }
        i += 1;
    }
    false
}

/// What a node is like when a Regulated job is to be placed on it.
pub struct NodeCapacity {
    pub status: String,
    pub trust_level: String,
    pub last_seen_at: Option<i128>,
    pub trust_expires_at: Option<i128>,
    pub attestation_report_id: Option<Uuid>,
    pub reject_tags: Vec<String>,
    pub reserved_count: i64,
    pub max_concurrent: i32,
    pub gpu_temp_limit_c: Option<i32>,
    pub gpu_temp_c: Option<i32>,
    pub vram_reserve_mib: i64,
    pub vram_used_mib: Option<i64>,
    pub vram_total_mib: Option<i64>,
}

/// A node takes a Regulated job if it is online and trusted by its hardware, was just
/// heard of, still has the expected report, accepts the tags, has a slot that nobody
/// reserved, and is within the limits of its owner. What is unknown counts against
/// it.
pub open spec fn can_take(
    node: NodeCapacity,
    tags: Seq<String>,
    expected_report_id: Option<Uuid>,
    now: i128,
) -> bool {
    &&& node.status@ == "online"@
    &&& node.trust_level@ == "enhanced"@
    &&& node.last_seen_at matches Some(seen) && seen > now - MAX_SILENCE
    &&& node.trust_expires_at matches Some(expiry) && expiry > now + MIN_REPORT_REMAINING
    &&& expected_report_id is Some ==> node.attestation_report_id == expected_report_id
    &&& !rejects(node.reject_tags@, tags)
    &&& node.reserved_count < node.max_concurrent
    &&& node.gpu_temp_limit_c matches Some(limit) ==> node.gpu_temp_c is Some
        && node.gpu_temp_c->0 < limit
    &&& node.vram_reserve_mib > 0 ==> node.vram_used_mib is Some && node.vram_total_mib is Some
        && crate::arithmetic::clamped_i64(node.vram_total_mib->0 - node.vram_used_mib->0)
        >= node.vram_reserve_mib
}

pub fn check_reserved_capacity_and_policy(
    node: &NodeCapacity,
    tags: &Vec<String>,
    expected_report_id: Option<Uuid>,
    now: i128,
) -> (can: bool)
    requires
        clock::is_moment(now),
    ensures
        can == can_take(*node, tags@, expected_report_id, now),
{
    if !text::same_text(node.status.as_str(), "online") || !text::same_text(
        node.trust_level.as_str(),
        "enhanced",
    ) {
        return false;
    }
    match node.last_seen_at {
        Some(seen) => if seen <= now - MAX_SILENCE {
            return false;
        },
        None => {
            return false;
        },
    }
    match node.trust_expires_at {
        Some(expiry) => if expiry <= now + MIN_REPORT_REMAINING {
            return false;
        },
        None => {
            return false;
        },
    }
    match expected_report_id {
        Some(expected) => if !is_id(node.attestation_report_id, expected) {
            return false;
        },
        None => {},
    }
    if node_rejects(&node.reject_tags, tags) || node.reserved_count >= node.max_concurrent as i64 {
        return false;
    }
    match node.gpu_temp_limit_c {
        Some(limit) => match node.gpu_temp_c {
            Some(temperature) => if temperature >= limit {
                return false;
            },
            None => {
                return false;
            },
        },
        None => {},
    }
    if node.vram_reserve_mib > 0 {
        match (node.vram_used_mib, node.vram_total_mib) {
            (Some(used), Some(total)) => if crate::arithmetic::saturating_sub_i64(total, used)
                < node.vram_reserve_mib {
                return false;
            },
            _ => {
                return false;
            },
        }
    }
    true
}

/// A prepared route, with what it is bound to as that stands now. Times are
/// nanoseconds since the Unix epoch.
pub struct PreparedRoute {
    pub user_id: Uuid,
    pub status: String,
    pub model_instance_id: Uuid,
    pub node_id: Uuid,
    pub report_id: Uuid,
    pub weights_hash: String,
    pub expires_at: i128,
    pub instance_status: String,
    pub instance_quarantined: bool,
    pub current_instance_node: Uuid,
    pub node_status: String,
    pub last_seen_at: i128,
    pub current_report_id: Option<Uuid>,
    pub trust_expires_at: Option<i128>,
    pub report_status: String,
    pub key_origin: String,
    pub report_instance_id: Uuid,
    pub report_node_id: Uuid,
    pub report_model_hash: String,
    pub ephemeral_public_key: String,
    pub report_expires_at: i128,
    pub collateral_expires_at: i128,
    pub estimated_input_tokens: i32,
    pub max_output_tokens: i32,
}

/// Everything that a route was prepared on still holds.
pub open spec fn route_holds(route: PreparedRoute, now: i128) -> bool {
    &&& route.expires_at > now
    &&& route.instance_status@ == "published"@
    &&& !route.instance_quarantined
    &&& route.current_instance_node == route.node_id
    &&& route.node_status@ == "online"@
    &&& route.last_seen_at > now - MAX_SILENCE
    &&& route.current_report_id == Some(route.report_id)
    &&& route.trust_expires_at matches Some(expiry) && expiry > now
    &&& route.report_status@ == "verified"@
    &&& route.key_origin@ == "tee_runtime"@
    &&& route.report_instance_id == route.model_instance_id
    &&& route.report_node_id == route.node_id
    &&& route.report_model_hash@ == route.weights_hash@
    &&& route.report_expires_at > now
    &&& route.collateral_expires_at > now
}

fn route_still_holds(route: &PreparedRoute, now: i128) -> (holds: bool)
    requires
        clock::is_moment(now),
    ensures
        holds == route_holds(*route, now),
{
    let trusted = match route.trust_expires_at {
        Some(expiry) => expiry > now,
        None => false,
    };
    route.expires_at > now && text::same_text(route.instance_status.as_str(), "published")
        && !route.instance_quarantined && route.current_instance_node == route.node_id
        && text::same_text(route.node_status.as_str(), "online") && route.last_seen_at > now
        - MAX_SILENCE && is_id(route.current_report_id, route.report_id) && trusted
        && text::same_text(route.report_status.as_str(), "verified") && text::same_text(
        route.key_origin.as_str(),
        "tee_runtime",
    ) && route.report_instance_id == route.model_instance_id && route.report_node_id
        == route.node_id && text::same_text(
        route.report_model_hash.as_str(),
        route.weights_hash.as_str(),
    ) && route.report_expires_at > now && route.collateral_expires_at > now
}

pub open spec fn consume_refusal(route: PreparedRoute, user_id: Uuid, now: i128) -> Option<
    ApiError,
> {
    if route.user_id != user_id {
        Some(ApiError::forbidden("无权消费该 Regulated route"))
    } else if route.status@ != "prepared"@ {
        Some(
            ApiError::conflict("regulated_route_replay", "Regulated route 已消费或过期，拒绝重放"),
        )
    } else if !route_holds(route, now) {
        Some(
            ApiError::attestation_failed("prepared route 的节点、模型或硬件报告在消费前已失效"),
        )
    } else {
        None
    }
}

/// Checks that a route can be consumed: by its own account, for the first time, and
/// while all that it was prepared on still holds.
pub fn authorize_consumption(route: &PreparedRoute, user_id: Uuid, now: i128) -> (authorized: Result<
    (),
    ApiError,
>)
    requires
        clock::is_moment(now),
    ensures
        authorized == error::unless(consume_refusal(*route, user_id, now), ()),
{
    if route.user_id != user_id {
        return Err(ApiError::forbidden("无权消费该 Regulated route"));
    }
    if !text::same_text(route.status.as_str(), "prepared") {
        return Err(
            ApiError::conflict("regulated_route_replay", "Regulated route 已消费或过期，拒绝重放"),
        );
    }
    if !route_still_holds(route, now) {
        return Err(
            ApiError::attestation_failed("prepared route 的节点、模型或硬件报告在消费前已失效"),
        );
    }
    Ok(())
}

/// An envelope that a consumer sends along a route.
pub struct RequestEnvelope {
    pub report_id: Uuid,
    pub model_instance_id: Uuid,
    pub sender_public_key: String,
}

/// The longest envelope that a job can carry, in bytes.
pub const MAX_ENVELOPE_BYTES: usize = 900_000;

/// What a job is placed on a route with.
pub open spec fn placement_refusal(
    route: PreparedRoute,
    node_can_take: bool,
    quarantined: bool,
    envelope: RequestEnvelope,
    opaque: Option<String>,
    billing: BillingSnapshot,
) -> Option<ApiError> {
    if !node_can_take {
        Some(
            ApiError::policy_rejected("prepared route 的固定节点在消费前已满载或不再满足本机策略"),
        )
    } else if quarantined {
        Some(ApiError::attestation_failed("prepared route 的固定模型实例已被 canary 风控隔离"))
    } else if envelope.report_id != route.report_id || envelope.model_instance_id
        != route.model_instance_id || envelope.sender_public_key@ == route.ephemeral_public_key@ {
        Some(
            ApiError::attestation_failed(
                "请求 envelope 与 route/report/model 绑定不一致或使用了错误发送方公钥",
            ),
        )
    } else {
        match opaque {
            None => Some(
                ApiError::bad_request("invalid_regulated_job", "无法编码 opaque envelope"),
            ),
            Some(opaque) => if text::byte_length(opaque@) > MAX_ENVELOPE_BYTES {
                Some(
                    ApiError::bad_request(
                        "invalid_regulated_job",
                        "Regulated envelope 超过任务载荷上限",
                    ),
                )
            } else if billing.authorized_input_tokens != route.estimated_input_tokens
                || billing.authorized_max_output_tokens != route.max_output_tokens {
                Some(billing_profile_unavailable())
            } else {
                None
            },
        }
    }
}

/// Places a job on its route: the node must still take it, the envelope must be bound
/// to the route and not be sent under the key of the hardware, and the frozen billing
/// must be for the tokens of the route. `opaque` is the envelope as it is stored. The
/// result is what the account has reserved from then on.
pub fn place_regulated_job(
    route: &PreparedRoute,
    node_can_take: bool,
    quarantined: bool,
    envelope: &RequestEnvelope,
    opaque: &Option<String>,
    billing: &BillingSnapshot,
    spendable_micro: i64,
    reserved_micro: i64,
) -> (reserved: Result<i64, ApiError>)
    ensures
        reserved == match placement_refusal(
            *route,
            node_can_take,
            quarantined,
            *envelope,
            *opaque,
            *billing,
        ) {
            Some(refused) => Err::<i64, ApiError>(refused),
            None => crate::jobs::reserved_after(
                spendable_micro as int,
                reserved_micro as int,
                billing.reservation_micro as int,
            ),
        },
{
    if !node_can_take {
        return Err(
            ApiError::policy_rejected("prepared route 的固定节点在消费前已满载或不再满足本机策略"),
        );
    }
    if quarantined {
        return Err(
            ApiError::attestation_failed("prepared route 的固定模型实例已被 canary 风控隔离"),
        );
    }
    if envelope.report_id != route.report_id || envelope.model_instance_id
        != route.model_instance_id || text::same_text(
        envelope.sender_public_key.as_str(),
        route.ephemeral_public_key.as_str(),
    ) {
        return Err(
            ApiError::attestation_failed(
                "请求 envelope 与 route/report/model 绑定不一致或使用了错误发送方公钥",
            ),
        );
    }
    let opaque = match opaque {
        Some(opaque) => opaque,
        None => {
            return Err(
                ApiError::bad_request("invalid_regulated_job", "无法编码 opaque envelope"),
            );
        },
    };
    if text::bytes_in(opaque.as_str()) > MAX_ENVELOPE_BYTES {
        return Err(
            ApiError::bad_request("invalid_regulated_job", "Regulated envelope 超过任务载荷上限"),
        );
    }
    if billing.authorized_input_tokens != route.estimated_input_tokens as i64
        || billing.authorized_max_output_tokens != route.max_output_tokens as i64 {
        return Err(billing_profile_unavailable());
    }
    crate::jobs::reserve_quota(spendable_micro, reserved_micro, billing.reservation_micro)
}

/// A route is consumed by one job only: if it is no longer there to be consumed, the
/// job is not created.
pub fn check_consumed(rows_affected: u64) -> (checked: Result<(), ApiError>)
    ensures
        checked == if rows_affected == 1 {
            Ok::<(), ApiError>(())
        } else {
            Err::<(), ApiError>(
                ApiError::conflict("regulated_route_replay", "Regulated route 已被并发消费或刚刚过期"),
            )
        },
{
    if rows_affected != 1 {
        return Err(
            ApiError::conflict("regulated_route_replay", "Regulated route 已被并发消费或刚刚过期"),
        );
    }
    Ok(())
}

/// A route that was consumed, or whose hardware trust is gone, is never consumed
/// again, by whomever and whenever.
pub proof fn spent_routes_are_not_consumed(route: PreparedRoute, user_id: Uuid, now: i128)
    requires
        route.status@ != "prepared"@ || route.expires_at <= now || route.report_expires_at <= now
            || route.collateral_expires_at <= now || route.trust_expires_at is None,
    ensures
        consume_refusal(route, user_id, now) is Some,
{
}

/// A Regulated lease, with all that it rests on. Times are nanoseconds since the Unix
/// epoch.
pub struct RegulatedLease {
    pub confidentiality: String,
    pub job_status: String,
    pub leased_to_node_id: Option<Uuid>,
    pub regulated_node_id: Uuid,
    pub model_id: Uuid,
    pub model_instance_id: Uuid,
    pub attestation_report_id: Uuid,
    pub node_status: String,
    pub last_seen_at: Option<i128>,
    pub trust_level: String,
    pub trust_expires_at: Option<i128>,
    pub node_report_id: Option<Uuid>,
    pub instance_node_id: Uuid,
    pub instance_model_id: Uuid,
    pub instance_status: String,
    pub instance_quarantined: bool,
    pub model_enabled: bool,
    pub weights_hash: String,
    pub report_node_id: Uuid,
    pub report_instance_id: Option<Uuid>,
    pub report_model_hash: String,
    pub report_status: String,
    pub report_key_origin: String,
    pub report_expires_at: Option<i128>,
    pub collateral_current: Option<bool>,
    pub collateral_expires_at: Option<i128>,
    pub signature_verified: Option<bool>,
    pub certificate_chain_verified: Option<bool>,
    pub tcb_current: Option<bool>,
}

pub open spec fn later_than(moment: Option<i128>, now: int) -> bool {
    moment matches Some(moment) && moment > now
}

fn is_later(moment: Option<i128>, now: i128) -> (later: bool)
    ensures
        later == later_than(moment, now as int),
{
    match moment {
        Some(moment) => moment > now,
        None => false,
    }
}

fn is_true(flag: Option<bool>) -> (set: bool)
    ensures
        set == (flag == Some(true)),
{
    match flag {
        Some(flag) => flag,
        None => false,
    }
}

/// Every binding of the lease still holds: the job, the node, the model instance, the
/// model, and the hardware report with all conclusions that were drawn from it. What
/// is unknown counts against it.
pub open spec fn lease_binding_holds(lease: RegulatedLease, node_id: Uuid, now: i128) -> bool {
    &&& lease.confidentiality@ == "regulated"@
    &&& lease.job_status@ == "leased"@
    &&& lease.leased_to_node_id == Some(node_id)
    &&& lease.regulated_node_id == node_id
    &&& lease.node_status@ == "online"@ || lease.node_status@ == "paused"@ || lease.node_status@
        == "draining"@
    &&& later_than(lease.last_seen_at, now - MAX_SILENCE)
    &&& lease.trust_level@ == "enhanced"@
    &&& later_than(lease.trust_expires_at, now as int)
    &&& lease.node_report_id == Some(lease.attestation_report_id)
    &&& lease.instance_node_id == node_id
    &&& lease.instance_model_id == lease.model_id
    &&& lease.instance_status@ == "published"@ || lease.instance_status@ == "draining"@
    &&& !lease.instance_quarantined
    &&& lease.model_enabled
    &&& lease.report_node_id == node_id
    &&& lease.report_instance_id == Some(lease.model_instance_id)
    &&& lease.report_model_hash@ == lease.weights_hash@
    &&& lease.report_status@ == "verified"@
    &&& lease.report_key_origin@ == "tee_runtime"@
    &&& later_than(lease.report_expires_at, now as int)
    &&& lease.collateral_current == Some(true)
    &&& later_than(lease.collateral_expires_at, now as int)
    &&& lease.signature_verified == Some(true)
    &&& lease.certificate_chain_verified == Some(true)
    &&& lease.tcb_current == Some(true)
}

/// Checks every binding of a Regulated lease. `None` stands for a job whose node,
/// instance, model or report is gone.
pub fn regulated_lease_binding_valid(lease: &Option<RegulatedLease>, node_id: Uuid, now: i128) -> (valid: bool)
    requires
        clock::is_moment(now),
    ensures
        valid == (*lease matches Some(lease) && lease_binding_holds(lease, node_id, now)),
{
    match lease {
        None => false,
        Some(lease) => {
            let node_usable = text::same_text(lease.node_status.as_str(), "online")
                || text::same_text(lease.node_status.as_str(), "paused") || text::same_text(
                lease.node_status.as_str(),
                "draining",
            );
            let instance_usable = text::same_text(lease.instance_status.as_str(), "published")
                || text::same_text(lease.instance_status.as_str(), "draining");
            let job_bound = text::same_text(lease.confidentiality.as_str(), "regulated")
                && text::same_text(lease.job_status.as_str(), "leased") && is_id(
                lease.leased_to_node_id,
                node_id,
            ) && lease.regulated_node_id == node_id;
            let node_bound = node_usable && is_later(lease.last_seen_at, now - MAX_SILENCE)
                && text::same_text(lease.trust_level.as_str(), "enhanced") && is_later(
                lease.trust_expires_at,
                now,
            ) && is_id(lease.node_report_id, lease.attestation_report_id);
            let instance_bound = lease.instance_node_id == node_id && lease.instance_model_id
                == lease.model_id && instance_usable && !lease.instance_quarantined
                && lease.model_enabled;
            let report_bound = lease.report_node_id == node_id && is_id(
                lease.report_instance_id,
                lease.model_instance_id,
            ) && text::same_text(lease.report_model_hash.as_str(), lease.weights_hash.as_str())
                && text::same_text(lease.report_status.as_str(), "verified") && text::same_text(
                lease.report_key_origin.as_str(),
                "tee_runtime",
            ) && is_later(lease.report_expires_at, now) && is_true(lease.collateral_current)
                && is_later(lease.collateral_expires_at, now) && is_true(lease.signature_verified)
                && is_true(lease.certificate_chain_verified) && is_true(lease.tcb_current);
            job_bound && node_bound && instance_bound && report_bound
        },
    }
}

/// What the evidence of a hardware report is.
#[derive(Clone, Copy, Debug, PartialEq, Eq, Structural)]
pub enum AttestationEvidenceKind {
    SnpExtendedReport,
    TdxQuote,
}

impl AttestationEvidenceKind {
    pub open spec fn name(self) -> Seq<char> {
        match self {
            AttestationEvidenceKind::SnpExtendedReport => "snp_extended_report"@,
            AttestationEvidenceKind::TdxQuote => "tdx_quote"@,
        }
    }
}

pub fn evidence_kind_from_db(value: &str) -> (kind: Result<AttestationEvidenceKind, ApiError>)
    ensures
        kind matches Ok(kind) ==> kind.name() == value@,
        kind matches Err(refused) ==> refused == ApiError::internal() && forall|
            kind: AttestationEvidenceKind,
        |
            #[trigger] kind.name() != value@,
{
    if text::same_text(value, "snp_extended_report") {
        Ok(AttestationEvidenceKind::SnpExtendedReport)
    } else if text::same_text(value, "tdx_quote") {
        Ok(AttestationEvidenceKind::TdxQuote)
    } else {
        Err(ApiError::internal())
    }
}

pub open spec fn names_provider(value: Seq<char>) -> bool {
    exists|provider: crate::jobs::AttestationProvider| #[trigger] provider.name() == value
}

pub open spec fn names_evidence_kind(value: Seq<char>) -> bool {
    exists|kind: AttestationEvidenceKind| #[trigger] kind.name() == value
}

/// The evidence that a consumer gets with a route.
pub struct RouteEvidence {
    pub provider: crate::jobs::AttestationProvider,
    pub evidence_kind: AttestationEvidenceKind,
    pub evidence: String,
    pub challenge_nonce: String,
}

/// Puts together the evidence of a route: without it the consumer could not check the
/// hardware. The nonce of a challenge is written in Base64.
pub fn response_from_selected(
    provider: &str,
    evidence_kind: &str,
    evidence: Option<String>,
    nonce: &Vec<u8>,
) -> (response: Result<RouteEvidence, ApiError>)
    requires
        nonce@.len() <= usize::MAX / 4,
    ensures
        match response {
            Ok(response) => {
                &&& response.provider.name() == provider@
                &&& response.evidence_kind.name() == evidence_kind@
                &&& evidence == Some(response.evidence)
                &&& response.challenge_nonce@ == crypto::base64_url_text(nonce@)
            },
            Err(refused) => if names_provider(provider@) && names_evidence_kind(evidence_kind@) {
                &&& evidence is None
                &&& refused == ApiError::attestation_unavailable(
                    "硬件报告没有可供消费者本机复验的 evidence",
                )
            } else {
                refused == ApiError::internal()
            },
        },
{
    let provider = crate::jobs::attestation_provider_from_db(provider)?;
    let evidence_kind = evidence_kind_from_db(evidence_kind)?;
    match evidence {
        Some(evidence) => Ok(
            RouteEvidence {
                provider,
                evidence_kind,
                evidence,
                challenge_nonce: crypto::base64_url_encode(nonce.as_slice()),
            },
        ),
        None => Err(
            ApiError::attestation_unavailable("硬件报告没有可供消费者本机复验的 evidence"),
        ),
    }
}

/// The first node that takes a job; `None` where none does.
pub open spec fn is_first_capable(
    nodes: Seq<NodeCapacity>,
    tags: Seq<String>,
    now: i128,
    first: Option<usize>,
) -> bool {
    match first {
        Some(first) => {
            &&& first < nodes.len()
            &&& can_take(nodes[first as int], tags, None, now)
            &&& forall|i: int| 0 <= i < first ==> !can_take(#[trigger] nodes[i], tags, None, now)
        },
        None => forall|i: int|
            0 <= i < nodes.len() ==> !can_take(#[trigger] nodes[i], tags, None, now),
    }
}

/// Finds the first node that takes a job, among nodes in the order of their rank.
pub fn select_capable(nodes: &Vec<NodeCapacity>, tags: &Vec<String>, now: i128) -> (selected: Result<
    usize,
    ApiError,
>)
    requires
        clock::is_moment(now),
    ensures
        match selected {
            Ok(first) => is_first_capable(nodes@, tags@, now, Some(first)),
            Err(refused) => is_first_capable(nodes@, tags@, now, None) && refused
                == ApiError::attestation_unavailable(
                "没有具备未过期本机可复验硬件报告与 TEE runtime 密钥的 Regulated 节点",
            ),
        },
{
    let mut i: usize = 0;
    while i < nodes.len()
        invariant
            i <= nodes@.len(),
            clock::is_moment(now),
            forall|j: int| 0 <= j < i ==> !can_take(#[trigger] nodes@[j], tags@, None, now),
        decreases nodes@.len() - i,
    {
        if check_reserved_capacity_and_policy(&nodes[i], tags, None, now) {
            return Ok(i);
        }
        i += 1;
    }
    Err(
        ApiError::attestation_unavailable(
            "没有具备未过期本机可复验硬件报告与 TEE runtime 密钥的 Regulated 节点",
        ),
    )
}

/// What a route is prepared on, once its node is selected. Times are nanoseconds since
/// the Unix epoch.
pub struct SelectedCandidate {
    pub quarantined: bool,
    pub report: SelectedReport,
    pub report_expires_at: i128,
    pub collateral_expires_at: i128,
    pub billing_valid_until: Option<i128>,
}

pub open spec fn preparation(candidate: SelectedCandidate, now: i128) -> Result<i128, ApiError> {
    if candidate.quarantined {
        Err(
            ApiError::attestation_unavailable(
                "候选模型实例在 Regulated route 提交前被 canary 风控隔离，请重试路由",
            ),
        )
    } else if let Some(refused) = report_refusal(candidate.report, now) {
        Err(refused)
    } else {
        match candidate.billing_valid_until {
            None => Err(billing_profile_unavailable()),
            Some(billing_valid_until) => route_expiry(
                now,
                candidate.report_expires_at,
                candidate.collateral_expires_at,
                billing_valid_until,
            ),
        }
    }
}

/// Prepares a route on a selected node, and decides until when it can be consumed.
/// `billing_valid_until` is `None` where the model has no billing profile that prices the
/// request.
pub fn prepare_regulated_job(candidate: &SelectedCandidate, now: i128) -> (expires_at: Result<
    i128,
    ApiError,
>)
    requires
        clock::is_moment(now),
    ensures
        expires_at == preparation(*candidate, now),
{
    if candidate.quarantined {
        return Err(
            ApiError::attestation_unavailable(
                "候选模型实例在 Regulated route 提交前被 canary 风控隔离，请重试路由",
            ),
        );
    }
    validate_selected_report(&candidate.report, now)?;
    match candidate.billing_valid_until {
        None => Err(billing_profile_unavailable()),
        Some(billing_valid_until) => plan_route_expiry(
            now,
            candidate.report_expires_at,
            candidate.collateral_expires_at,
            billing_valid_until,
        ),
    }
}

/// A route that is about to be consumed: what was frozen with it, and the node, the
/// account and the envelope that it meets.
pub struct Consumption {
    pub route: PreparedRoute,
    pub frozen: JobBillingSnapshot,
    pub quote: Option<BillingQuote>,
    pub reservation_micro: Option<i64>,
    pub tags: Vec<String>,
    pub node: NodeCapacity,
    pub quarantined: bool,
    pub envelope: RequestEnvelope,
    pub opaque: Option<String>,
    pub spendable_micro: i64,
    pub reserved_micro: i64,
}

/// What was frozen with a route prices its job.
pub open spec fn frozen_prices(consumption: Consumption) -> bool {
    crate::jobs::profile_prices(
        consumption.frozen.contract_version@,
        consumption.frozen.model_weights_hash@,
        consumption.route.weights_hash@,
        consumption.quote,
        consumption.reservation_micro,
    ) && consumption.quote == Some(consumption.frozen.quote())
}

/// The billing that was frozen with a route.
pub open spec fn frozen_billing(consumption: Consumption) -> BillingSnapshot {
    BillingSnapshot {
        contract_version: consumption.frozen.contract_version,
        model_weights_hash: consumption.frozen.model_weights_hash,
        authorized_input_tokens: consumption.frozen.authorized_input_tokens,
        authorized_max_output_tokens: consumption.frozen.authorized_max_output_tokens,
        quote: consumption.quote->0,
        reservation_micro: consumption.reservation_micro->0,
    }
}

pub open spec fn consumed_route(consumption: Option<Consumption>, user_id: Uuid, now: i128) -> Result<
    (i64, i64),
    ApiError,
> {
    match consumption {
        None => Err(ApiError::not_found("Regulated prepared route")),
        Some(consumption) => if let Some(refused) = consume_refusal(
            consumption.route,
            user_id,
            now,
        ) {
            Err(refused)
        } else if !frozen_prices(consumption) {
            Err(billing_profile_unavailable())
        } else {
            let billing = frozen_billing(consumption);
            match placement_refusal(
                consumption.route,
                can_take(
                    consumption.node,
                    consumption.tags@,
                    Some(consumption.route.report_id),
                    now,
                ),
                consumption.quarantined,
                consumption.envelope,
                consumption.opaque,
                billing,
            ) {
                Some(refused) => Err(refused),
                None => match crate::jobs::reserved_after(
                    consumption.spendable_micro as int,
                    consumption.reserved_micro as int,
                    billing.reservation_micro as int,
                ) {
                    Ok(reserved_after) => Ok((billing.reservation_micro, reserved_after)),
                    Err(refused) => Err(refused),
                },
            }
        },
    }
}

/// Consumes a prepared route for a new job. The result is the cost that is reserved for
/// the job, and what its account has reserved from then on.
pub fn consume_route(consumption: Option<Consumption>, user_id: Uuid, now: i128) -> (created: Result<
    (i64, i64),
    ApiError,
>)
    requires
        clock::is_moment(now),
    ensures
        created == consumed_route(consumption, user_id, now),
{
    match consumption {
        None => Err(ApiError::not_found("Regulated prepared route")),
        Some(consumption) => {
            authorize_consumption(&consumption.route, user_id, now)?;
            let billing = BillingSnapshot::from_frozen_row(
                consumption.frozen,
                consumption.route.weights_hash.as_str(),
                consumption.quote,
                consumption.reservation_micro,
            )?;
            let node_can_take = check_reserved_capacity_and_policy(
                &consumption.node,
                &consumption.tags,
                Some(consumption.route.report_id),
                now,
            );
            let reserved_after = place_regulated_job(
                &consumption.route,
                node_can_take,
                consumption.quarantined,
                &consumption.envelope,
                &consumption.opaque,
                &billing,
                consumption.spendable_micro,
                consumption.reserved_micro,
            )?;
            Ok((billing.reservation_micro, reserved_after))
        },
    }
}

/// A job that the database holds under a key of an account.
pub struct ExistingRegulatedJob {
    pub job_id: Uuid,
    pub status: String,
    pub model_id: Uuid,
    pub reserved_cost_micro: i64,
    pub route_id: Option<Uuid>,
    pub request_fingerprint: Option<String>,
}

/// A Regulated job that was asked for.
#[derive(Clone, Copy, Debug, PartialEq, Eq, Structural)]
pub enum RegulatedCreation {
    /// The job was created before, for the same request.
    Replay { job_id: Uuid, status: JobStatus, model_id: Uuid, reserved_cost_micro: i64 },
    /// The job is new: its cost, and what its account has reserved from then on.
    Created { reservation_micro: i64, reserved_after_micro: i64 },
}

/// The job under a key was created for this very route and request.
pub open spec fn repeats_creation(
    existing: ExistingRegulatedJob,
    route_id: Uuid,
    request_fingerprint: Seq<char>,
) -> bool {
    existing.route_id == Some(route_id) && text::holds(
        existing.request_fingerprint,
        request_fingerprint,
    )
}

/// What is answered where the key of a request is taken.
pub open spec fn answers_existing(
    created: Result<RegulatedCreation, ApiError>,
    existing: ExistingRegulatedJob,
    route_id: Uuid,
    request_fingerprint: Seq<char>,
) -> bool {
    if !repeats_creation(existing, route_id, request_fingerprint) {
        created == Err::<RegulatedCreation, ApiError>(
            ApiError::conflict(
                "idempotency_binding_mismatch",
                "Regulated 创建幂等键已绑定到不同 route 或 envelope",
            ),
        )
    } else {
        match created {
            Ok(RegulatedCreation::Replay { job_id, status, model_id, reserved_cost_micro }) => {
                &&& job_id == existing.job_id
                &&& status.name() == existing.status@
                &&& model_id == existing.model_id
                &&& reserved_cost_micro == existing.reserved_cost_micro
            },
            Ok(RegulatedCreation::Created { .. }) => false,
            Err(refused) => refused == ApiError::internal() && forall|status: JobStatus|
                #[trigger] status.name() != existing.status@,
        }
    }
}

/// What a request for a new job comes to: the account is assessed, and the route consumed.
pub open spec fn new_creation(
    assessment: Result<bool, AntiAbuseError>,
    consumption: Option<Consumption>,
    user_id: Uuid,
    now: i128,
) -> Result<RegulatedCreation, ApiError> {
    match assessment {
        Err(failure) => Err(anti_abuse_refusal(failure)),
        Ok(false) => Err(ApiError::anti_abuse_blocked()),
        Ok(true) => match consumed_route(consumption, user_id, now) {
            Ok((reservation_micro, reserved_after_micro)) => Ok(
                RegulatedCreation::Created { reservation_micro, reserved_after_micro },
            ),
            Err(refused) => Err(refused),
        },
    }
}

/// Creates a Regulated job on a prepared route, once for each key. `existing` is the job
/// that the account has under the key of the request, and `consumption` the route that the
/// request names, where there is one.
pub fn create_regulated_job(
    existing: &Option<ExistingRegulatedJob>,
    route_id: Uuid,
    request_fingerprint: &str,
    assessment: Result<bool, AntiAbuseError>,
    consumption: Option<Consumption>,
    user_id: Uuid,
    now: i128,
) -> (created: Result<RegulatedCreation, ApiError>)
    requires
        clock::is_moment(now),
    ensures
        match *existing {
            Some(existing) => answers_existing(
                created,
                existing,
                route_id,
                request_fingerprint@,
            ),
            None => created == new_creation(assessment, consumption, user_id, now),
        },
{
    if let Some(existing) = existing {
        check_existing_job(
            existing.route_id,
            &existing.request_fingerprint,
            route_id,
            request_fingerprint,
        )?;
        let status = job_status_from_db(existing.status.as_str())?;
        return Ok(
            RegulatedCreation::Replay {
                job_id: existing.job_id,
                status,
                model_id: existing.model_id,
                reserved_cost_micro: existing.reserved_cost_micro,
            },
        );
    }
    assess_job_creation(assessment)?;
    let (reservation_micro, reserved_after_micro) = consume_route(consumption, user_id, now)?;
    Ok(RegulatedCreation::Created { reservation_micro, reserved_after_micro })
}

/// What is stored of a job that was created on a route.
pub open spec fn records_creation(
    stored: ExistingRegulatedJob,
    route: PreparedRoute,
    route_after: PreparedRoute,
    route_id: Uuid,
    request_fingerprint: Seq<char>,
    reservation_micro: i64,
) -> bool {
    &&& stored.route_id == Some(route_id)
    &&& text::holds(stored.request_fingerprint, request_fingerprint)
    &&& stored.reserved_cost_micro == reservation_micro
    &&& route_after.user_id == route.user_id
    &&& route_after.status@ == "consumed"@
}

/// A route pays for one job. Once a job was created on it, and whatever became of the job
/// since, the same request is told of that job and reserves nothing, the same key with another route or request is a conflict, and
/// the same route under another key is refused as a replay, whatever it then meets.
pub proof fn routes_are_consumed_once(
    consumption: Consumption,
    route_id: Uuid,
    request_fingerprint: Seq<char>,
    user_id: Uuid,
    now: i128,
    stored: ExistingRegulatedJob,
    status: JobStatus,
    later_route_id: Uuid,
    later_fingerprint: Seq<char>,
    repeated: Result<RegulatedCreation, ApiError>,
    later: Consumption,
    later_now: i128,
)
    requires
        new_creation(Ok(true), Some(consumption), user_id, now) is Ok,
        records_creation(
            stored,
            consumption.route,
            later.route,
            route_id,
            request_fingerprint,
            consumption.reservation_micro->0,
        ),
        stored.status@ == status.name(),
        answers_existing(repeated, stored, later_route_id, later_fingerprint),
    ensures
        later_route_id == route_id && later_fingerprint == request_fingerprint ==> repeated == Ok::<
            RegulatedCreation,
            ApiError,
        >(
            RegulatedCreation::Replay {
                job_id: stored.job_id,
                status,
                model_id: stored.model_id,
                reserved_cost_micro: consumption.reservation_micro->0,
            },
        ),
        later_route_id != route_id || later_fingerprint != request_fingerprint ==> repeated == Err::<
            RegulatedCreation,
            ApiError,
        >(
            ApiError::conflict(
                "idempotency_binding_mismatch",
                "Regulated 创建幂等键已绑定到不同 route 或 envelope",
            ),
        ),
        new_creation(Ok(true), Some(later), user_id, later_now) == Err::<
            RegulatedCreation,
            ApiError,
        >(
            ApiError::conflict("regulated_route_replay", "Regulated route 已消费或过期，拒绝重放"),
        ),
{
    reveal_strlit("consumed");
    reveal_strlit("prepared");
    assert("consumed"@[0] != "prepared"@[0]);
    if let Ok(RegulatedCreation::Replay { status: told, .. }) = repeated {
        statuses_are_told_apart(told, status);
    }
}

/// A job is created only on a route of the account that asks, for the report that the
/// route was prepared on, and for no more than the account has left.
pub proof fn created_jobs_keep_to_their_route(
    consumption: Consumption,
    user_id: Uuid,
    now: i128,
)
    requires
        consumed_route(Some(consumption), user_id, now) is Ok,
        0 <= consumption.reserved_micro,
        consumption.reservation_micro matches Some(reservation) ==> 0 <= reservation,
    ensures
        consumption.route.user_id == user_id,
        route_holds(consumption.route, now),
        consumption.envelope.report_id == consumption.route.report_id,
        consumption.envelope.model_instance_id == consumption.route.model_instance_id,
        consumption.node.attestation_report_id == Some(consumption.route.report_id),
        consumed_route(Some(consumption), user_id, now)->Ok_0.0 + consumption.reserved_micro
            <= consumption.spendable_micro,
{
}

/// A node that is picked for a Regulated job is online, trusted by its hardware for another
/// half a minute at least, was heard of within a minute and a half, has a slot that nobody
/// reserved, rejects none of the tags, and is within the limits that its owner set: cooler
/// than the limit, and with the memory that is kept free.
pub proof fn picked_nodes_are_within_their_limits(
    nodes: Seq<NodeCapacity>,
    tags: Seq<String>,
    now: i128,
    first: usize,
)
    requires
        is_first_capable(nodes, tags, now, Some(first)),
    ensures
        first < nodes.len(),
        nodes[first as int].status@ == "online"@,
        nodes[first as int].trust_level@ == "enhanced"@,
        nodes[first as int].last_seen_at matches Some(seen) && seen > now - 90_000_000_000,
        nodes[first as int].trust_expires_at matches Some(expiry) && expiry > now
            + 30_000_000_000,
        nodes[first as int].reserved_count < nodes[first as int].max_concurrent,
        nodes[first as int].gpu_temp_limit_c matches Some(limit) ==> (
        nodes[first as int].gpu_temp_c matches Some(temperature) && temperature < limit),
        nodes[first as int].vram_reserve_mib > 0 ==> (
        nodes[first as int].vram_used_mib matches Some(used) && (
        nodes[first as int].vram_total_mib matches Some(total) && total - used
            >= nodes[first as int].vram_reserve_mib)),
        forall|i: int, j: int|
            0 <= i < tags.len() && 0 <= j < nodes[first as int].reject_tags@.len()
                ==> text::ascii_lowercase((#[trigger] tags[i])@) != text::ascii_lowercase(
                (#[trigger] nodes[first as int].reject_tags@[j])@,
            ),
{
    let node = nodes[first as int];
    assert forall|i: int, j: int|
        0 <= i < tags.len() && 0 <= j < node.reject_tags@.len() implies text::ascii_lowercase(
        (#[trigger] tags[i])@,
    ) != text::ascii_lowercase((#[trigger] node.reject_tags@[j])@) by {
        assert(!same_but_for_case(tags[i]@, node.reject_tags@[j]@));
    }
}

/// A node that fits is not passed over: where a node is online, trusted, fresh, free, within
/// its limits and rejects no tag, some node is picked, and none behind it.
pub proof fn fitting_nodes_are_not_passed_over(
    nodes: Seq<NodeCapacity>,
    tags: Seq<String>,
    now: i128,
    picked: Option<usize>,
    at: int,
)
    requires
        is_first_capable(nodes, tags, now, picked),
        0 <= at < nodes.len(),
        nodes[at].status@ == "online"@,
        nodes[at].trust_level@ == "enhanced"@,
        nodes[at].last_seen_at matches Some(seen) && seen > now - 90_000_000_000,
        nodes[at].trust_expires_at matches Some(expiry) && expiry > now + 30_000_000_000,
        nodes[at].reserved_count < nodes[at].max_concurrent,
        nodes[at].gpu_temp_limit_c matches Some(limit) ==> (
        nodes[at].gpu_temp_c matches Some(temperature) && temperature < limit),
        nodes[at].vram_reserve_mib > 0 ==> (nodes[at].vram_used_mib matches Some(used) && (
        nodes[at].vram_total_mib matches Some(total) && nodes[at].vram_reserve_mib <= total
            - used <= i64::MAX)),
        forall|i: int, j: int|
            0 <= i < tags.len() && 0 <= j < nodes[at].reject_tags@.len() ==> text::ascii_lowercase(
                (#[trigger] tags[i])@,
            ) != text::ascii_lowercase((#[trigger] nodes[at].reject_tags@[j])@),
    ensures
        picked matches Some(first) && first <= at,
{
    assert(can_take(nodes[at], tags, None, now));
}

/// A job that was created on a route is paid for and belongs there: the account is the
/// route's, the route was prepared and has not run out, the instance is published and not
/// quarantined, the node is online, fresh and the route's, its report is the route's and is
/// verified for the same instance, node and weights, and every trust that it rests on lasts.
/// The node is within the limits of its owner, and the account covers the reservation.
pub proof fn consumed_routes_are_sound(
    consumption: Consumption,
    user_id: Uuid,
    now: i128,
    reservation_micro: i64,
    reserved_after_micro: i64,
)
    requires
        consumed_route(Some(consumption), user_id, now) == Ok::<(i64, i64), ApiError>(
            (reservation_micro, reserved_after_micro),
        ),
    ensures
        consumption.route.user_id == user_id,
        consumption.route.status@ == "prepared"@,
        consumption.route.expires_at > now,
        consumption.route.instance_status@ == "published"@,
        !consumption.route.instance_quarantined && !consumption.quarantined,
        consumption.route.current_instance_node == consumption.route.node_id,
        consumption.route.node_status@ == "online"@,
        consumption.route.last_seen_at > now - 90_000_000_000,
        consumption.route.current_report_id == Some(consumption.route.report_id),
        consumption.route.trust_expires_at matches Some(expiry) && expiry > now,
        consumption.route.report_status@ == "verified"@,
        consumption.route.key_origin@ == "tee_runtime"@,
        consumption.route.report_instance_id == consumption.route.model_instance_id,
        consumption.route.report_node_id == consumption.route.node_id,
        consumption.route.report_model_hash@ == consumption.route.weights_hash@,
        consumption.route.report_expires_at > now,
        consumption.route.collateral_expires_at > now,
        consumption.node.status@ == "online"@,
        consumption.node.trust_level@ == "enhanced"@,
        consumption.node.last_seen_at matches Some(seen) && seen > now - 90_000_000_000,
        consumption.node.trust_expires_at matches Some(expiry) && expiry > now + 30_000_000_000,
        consumption.node.attestation_report_id == Some(consumption.route.report_id),
        consumption.node.reserved_count < consumption.node.max_concurrent,
        consumption.node.gpu_temp_limit_c matches Some(limit) ==> (
        consumption.node.gpu_temp_c matches Some(temperature) && temperature < limit),
        consumption.node.vram_reserve_mib > 0 ==> (
        consumption.node.vram_used_mib matches Some(used) && (
        consumption.node.vram_total_mib matches Some(total) && total - used
            >= consumption.node.vram_reserve_mib)),
        forall|i: int, j: int|
            0 <= i < consumption.tags@.len() && 0 <= j < consumption.node.reject_tags@.len()
                ==> text::ascii_lowercase((#[trigger] consumption.tags@[i])@)
                != text::ascii_lowercase((#[trigger] consumption.node.reject_tags@[j])@),
        consumption.envelope.report_id == consumption.route.report_id,
        consumption.envelope.model_instance_id == consumption.route.model_instance_id,
        consumption.envelope.sender_public_key@ != consumption.route.ephemeral_public_key@,
        consumption.opaque matches Some(opaque) && text::byte_length(opaque@) <= 900_000,
        consumption.frozen.contract_version@ == "server_reference_upper_bound_v1"@,
        consumption.frozen.model_weights_hash@ == consumption.route.weights_hash@,
        consumption.frozen.authorized_input_tokens == consumption.route.estimated_input_tokens,
        consumption.frozen.authorized_max_output_tokens == consumption.route.max_output_tokens,
        consumption.quote matches Some(quote) && quote.base_cost_micro
            == consumption.frozen.base_cost_micro && quote.billable_tokens
            == consumption.frozen.billable_tokens && quote.token_cost_micro
            == consumption.frozen.token_cost_micro && quote.gpu_cost_micro
            == consumption.frozen.gpu_cost_micro && quote.vram_cost_micro
            == consumption.frozen.vram_cost_micro && quote.reference_gpu_time_us
            == consumption.frozen.reference_gpu_time_us && quote.reference_vram_mib_microseconds
            == consumption.frozen.reference_vram_mib_microseconds,
        consumption.reservation_micro == Some(reservation_micro),
        reserved_after_micro == consumption.reserved_micro + reservation_micro,
        0 <= reservation_micro ==> consumption.spendable_micro - consumption.reserved_micro
            >= reservation_micro,
{
    assert forall|i: int, j: int|
        0 <= i < consumption.tags@.len() && 0 <= j
            < consumption.node.reject_tags@.len() implies text::ascii_lowercase(
        (#[trigger] consumption.tags@[i])@,
    ) != text::ascii_lowercase((#[trigger] consumption.node.reject_tags@[j])@) by {
        assert(!same_but_for_case(consumption.tags@[i]@, consumption.node.reject_tags@[j]@));
    }
}

/// A route that is in order is consumed, at the cost that was frozen with it: nothing but
/// what the account lacks is then in its way.
pub proof fn sound_routes_are_consumed(consumption: Consumption, user_id: Uuid, now: i128)
    requires
        consumption.route.user_id == user_id,
        consumption.route.status@ == "prepared"@,
        consumption.route.expires_at > now,
        consumption.route.instance_status@ == "published"@,
        !consumption.route.instance_quarantined && !consumption.quarantined,
        consumption.route.current_instance_node == consumption.route.node_id,
        consumption.route.node_status@ == "online"@,
        consumption.route.last_seen_at > now - 90_000_000_000,
        consumption.route.current_report_id == Some(consumption.route.report_id),
        consumption.route.trust_expires_at matches Some(expiry) && expiry > now,
        consumption.route.report_status@ == "verified"@,
        consumption.route.key_origin@ == "tee_runtime"@,
        consumption.route.report_instance_id == consumption.route.model_instance_id,
        consumption.route.report_node_id == consumption.route.node_id,
        consumption.route.report_model_hash@ == consumption.route.weights_hash@,
        consumption.route.report_expires_at > now,
        consumption.route.collateral_expires_at > now,
        consumption.node.status@ == "online"@,
        consumption.node.trust_level@ == "enhanced"@,
        consumption.node.last_seen_at matches Some(seen) && seen > now - 90_000_000_000,
        consumption.node.trust_expires_at matches Some(expiry) && expiry > now + 30_000_000_000,
        consumption.node.attestation_report_id == Some(consumption.route.report_id),
        consumption.node.reserved_count < consumption.node.max_concurrent,
        consumption.node.gpu_temp_limit_c matches Some(limit) ==> (
        consumption.node.gpu_temp_c matches Some(temperature) && temperature < limit),
        consumption.node.vram_reserve_mib <= 0,
        consumption.tags@.len() == 0 || consumption.node.reject_tags@.len() == 0,
        consumption.envelope.report_id == consumption.route.report_id,
        consumption.envelope.model_instance_id == consumption.route.model_instance_id,
        consumption.envelope.sender_public_key@ != consumption.route.ephemeral_public_key@,
        consumption.opaque matches Some(opaque) && text::byte_length(opaque@) <= 900_000,
        consumption.frozen.contract_version@ == "server_reference_upper_bound_v1"@,
        consumption.frozen.model_weights_hash@ == consumption.route.weights_hash@,
        consumption.frozen.authorized_input_tokens == consumption.route.estimated_input_tokens,
        consumption.frozen.authorized_max_output_tokens == consumption.route.max_output_tokens,
        consumption.quote == Some(
            BillingQuote {
                billable_tokens: consumption.frozen.billable_tokens,
                reference_gpu_time_us: consumption.frozen.reference_gpu_time_us,
                reference_vram_mib_microseconds:
                    consumption.frozen.reference_vram_mib_microseconds,
                token_cost_micro: consumption.frozen.token_cost_micro,
                gpu_cost_micro: consumption.frozen.gpu_cost_micro,
                vram_cost_micro: consumption.frozen.vram_cost_micro,
                base_cost_micro: consumption.frozen.base_cost_micro,
            },
        ),
        consumption.reservation_micro matches Some(reservation) && 0 <= reservation,
        0 <= consumption.reserved_micro <= consumption.spendable_micro,
    ensures
        ({
            let reservation = consumption.reservation_micro->0;
            consumed_route(Some(consumption), user_id, now) == if consumption.reserved_micro
                + reservation <= consumption.spendable_micro {
                Ok::<(i64, i64), ApiError>(
                    (reservation, (consumption.reserved_micro + reservation) as i64),
                )
            } else {
                Err::<(i64, i64), ApiError>(ApiError::InsufficientQuota)
            }
        }),
{
    assert(!rejects(consumption.node.reject_tags@, consumption.tags@));
}

/// A route lasts exactly until the first of what it rests on ends: the two minutes that it
/// has at most, the report, the collateral and the billing profile. It is prepared exactly
/// if that leaves more than half a minute.
pub proof fn routes_last_until_the_first_end(
    now: i128,
    report_expires_at: i128,
    collateral_expires_at: i128,
    billing_valid_until: i128,
)
    requires
        clock::is_moment(now),
    ensures
        route_expiry(now, report_expires_at, collateral_expires_at, billing_valid_until) is Ok
            <==> report_expires_at > now + 30_000_000_000 && collateral_expires_at > now
            + 30_000_000_000 && billing_valid_until > now + 30_000_000_000,
        route_expiry(
            now,
            report_expires_at,
            collateral_expires_at,
            billing_valid_until,
        ) matches Ok(expires_at) ==> {
            &&& expires_at <= now + 120_000_000_000
            &&& expires_at <= report_expires_at
            &&& expires_at <= collateral_expires_at
            &&& expires_at <= billing_valid_until
            &&& expires_at == now + 120_000_000_000 || expires_at == report_expires_at
                || expires_at == collateral_expires_at || expires_at == billing_valid_until
        },
{
}

/// A route is prepared exactly on an instance that is not quarantined and on a report that a
/// consumer can check: with its evidence, its measurement, and verified neither before it
/// was issued nor more than half a minute in the future; and for a model that is priced.
pub proof fn prepared_routes_can_be_checked(candidate: SelectedCandidate, now: i128)
    requires
        clock::is_moment(now),
    ensures
        preparation(candidate, now) is Ok <==> {
            &&& !candidate.quarantined
            &&& candidate.report.evidence matches Some(evidence) && evidence@.len() > 0
            &&& candidate.report.verified_at matches Some(verified_at)
                && candidate.report.issued_at <= verified_at <= now + 30_000_000_000
            &&& candidate.report.tee_measurement is Some
            &&& candidate.billing_valid_until matches Some(until) && until > now
                + 30_000_000_000
            &&& candidate.report_expires_at > now + 30_000_000_000
            &&& candidate.collateral_expires_at > now + 30_000_000_000
        },
{
}

/// A Regulated lease holds exactly while all that it rests on holds: the job is leased to
/// this node as a Regulated job, the node is working, was just heard of and is trusted for
/// the very report of the job, the instance and the model are the ones of the job and can be
/// used, and the report is a verified one of this node, instance and weights of which no
/// conclusion is missing and nothing has run out.
pub proof fn leases_hold_while_everything_holds(lease: RegulatedLease, node_id: Uuid, now: i128)
    ensures
        lease_binding_holds(lease, node_id, now) <==> {
            &&& lease.confidentiality@ == "regulated"@ && lease.job_status@ == "leased"@
            &&& lease.leased_to_node_id == Some(node_id) && lease.regulated_node_id == node_id
            &&& lease.node_status@ == "online"@ || lease.node_status@ == "paused"@
                || lease.node_status@ == "draining"@
            &&& lease.last_seen_at matches Some(seen) && seen > now - 90_000_000_000
            &&& lease.trust_level@ == "enhanced"@
            &&& lease.trust_expires_at matches Some(expiry) && expiry > now
            &&& lease.node_report_id == Some(lease.attestation_report_id)
            &&& lease.instance_node_id == node_id && lease.instance_model_id == lease.model_id
            &&& lease.instance_status@ == "published"@ || lease.instance_status@ == "draining"@
            &&& !lease.instance_quarantined && lease.model_enabled
            &&& lease.report_node_id == node_id
            &&& lease.report_instance_id == Some(lease.model_instance_id)
            &&& lease.report_model_hash@ == lease.weights_hash@
            &&& lease.report_status@ == "verified"@ && lease.report_key_origin@
                == "tee_runtime"@
            &&& lease.report_expires_at matches Some(expiry) && expiry > now
            &&& lease.collateral_expires_at matches Some(expiry) && expiry > now
            &&& lease.collateral_current == Some(true) && lease.signature_verified == Some(true)
            &&& lease.certificate_chain_verified == Some(true) && lease.tcb_current == Some(true)
        },
{
}

/// An account that is found to be abusive creates nothing, however good its route is; and a
/// key that is taken never creates a second job.
pub proof fn blocked_accounts_create_nothing(
    assessment: Result<bool, AntiAbuseError>,
    consumption: Option<Consumption>,
    user_id: Uuid,
    now: i128,
    created: Result<RegulatedCreation, ApiError>,
    existing: ExistingRegulatedJob,
    route_id: Uuid,
    request_fingerprint: Seq<char>,
)
    requires
        answers_existing(created, existing, route_id, request_fingerprint),
    ensures
        assessment != Ok::<bool, AntiAbuseError>(true) ==> new_creation(
            assessment,
            consumption,
            user_id,
            now,
        ) is Err,
        assessment == Ok::<bool, AntiAbuseError>(false) ==> new_creation(
            assessment,
            consumption,
            user_id,
            now,
        ) == Err::<RegulatedCreation, ApiError>(ApiError::AntiAbuseBlocked),
        !(created matches Ok(RegulatedCreation::Created { .. })),
        created matches Ok(RegulatedCreation::Replay { job_id, reserved_cost_micro, .. })
            ==> job_id == existing.job_id && reserved_cost_micro == existing.reserved_cost_micro
            && existing.route_id == Some(route_id) && (
        existing.request_fingerprint matches Some(stored) && stored@ == request_fingerprint),
{
}

/// A request is known by the hash of its serialised form under a mark and its domain.
pub proof fn requests_are_known_by_their_form(domain: Seq<char>, serialized: Seq<u8>)
    ensures
        regulated_fingerprint(domain, serialized) == text::lower_hex(
            crypto::sha256(
                vstd::utf8::encode_utf8("MindOne regulated idempotency fingerprint v1\0"@)
                    + vstd::utf8::encode_utf8(domain) + seq![0u8] + serialized,
            ),
        ),
{
    let mark = vstd::utf8::encode_utf8("MindOne regulated idempotency fingerprint v1\0"@);
    let named = vstd::utf8::encode_utf8(domain);
    assert(mark + named.push(0) + serialized =~= mark + named + seq![0u8] + serialized);
}

/// Two providers and two kinds of evidence have names, and nothing else does.
pub proof fn providers_and_evidence_have_their_names(value: Seq<char>)
    ensures
        names_provider(value) <==> value == "amd_sev_snp"@ || value == "intel_tdx"@,
        names_evidence_kind(value) <==> value == "snp_extended_report"@ || value == "tdx_quote"@,
        AttestationEvidenceKind::SnpExtendedReport.name() == "snp_extended_report"@,
        AttestationEvidenceKind::TdxQuote.name() == "tdx_quote"@,
{
    assert(crate::jobs::AttestationProvider::AmdSevSnp.name() == "amd_sev_snp"@);
    assert(crate::jobs::AttestationProvider::IntelTdx.name() == "intel_tdx"@);
    assert(AttestationEvidenceKind::SnpExtendedReport.name() == "snp_extended_report"@);
    assert(AttestationEvidenceKind::TdxQuote.name() == "tdx_quote"@);
}

/// A route is refused for what is missing first: evidence that lasts, and then a price that does.
pub proof fn routes_are_refused_for_a_reason(
    now: i128,
    report_expires_at: i128,
    collateral_expires_at: i128,
    billing_valid_until: i128,
)
    requires
        clock::is_moment(now),
    ensures
        report_expires_at <= now + 30_000_000_000 || collateral_expires_at <= now + 30_000_000_000
            ==> (route_expiry(now, report_expires_at, collateral_expires_at, billing_valid_until)
            matches Err(refused) && refused is AttestationUnavailable),
        report_expires_at > now + 30_000_000_000 && collateral_expires_at > now + 30_000_000_000
            && billing_valid_until <= now + 30_000_000_000 ==> (route_expiry(
            now,
            report_expires_at,
            collateral_expires_at,
            billing_valid_until,
        ) matches Err(refused) && refused is Unavailable),
{
}

/// A route is not consumed by another account, twice, or once what it rests on has gone; and each
/// of these is told.
pub proof fn consumption_is_refused_for_a_reason(
    consumption: Consumption,
    user_id: Uuid,
    now: i128,
)
    ensures
        consumed_route(None, user_id, now) matches Err(refused) && refused is NotFound,
        consumption.route.user_id != user_id ==> (consumed_route(Some(consumption), user_id, now)
            matches Err(refused) && refused is Forbidden),
        consumption.route.user_id == user_id && consumption.route.status@ != "prepared"@ ==> (
        consumed_route(Some(consumption), user_id, now) matches Err(
            ApiError::Conflict { code, .. },
        ) && code == "regulated_route_replay"),
        consumption.route.user_id == user_id && consumption.route.status@ == "prepared"@
            && !route_holds(consumption.route, now) ==> (consumed_route(
            Some(consumption),
            user_id,
            now,
        ) matches Err(refused) && refused is AttestationFailed),
{
}

/// A job is not placed on a node that cannot take it, on an instance in quarantine, or with an
/// envelope that belongs elsewhere; and each of these is told.
pub proof fn placement_is_refused_for_a_reason(
    route: PreparedRoute,
    node_can_take: bool,
    quarantined: bool,
    envelope: RequestEnvelope,
    opaque: Option<String>,
    billing: BillingSnapshot,
)
    ensures
        !node_can_take ==> (placement_refusal(
            route,
            node_can_take,
            quarantined,
            envelope,
            opaque,
            billing,
        ) matches Some(refused) && refused is PolicyRejected),
        node_can_take && (quarantined || envelope.report_id != route.report_id
            || envelope.model_instance_id != route.model_instance_id) ==> (placement_refusal(
            route,
            node_can_take,
            quarantined,
            envelope,
            opaque,
            billing,
        ) matches Some(refused) && refused is AttestationFailed),
{
}

} // verus!
