//! The output of a streaming job: an append-only log of events, numbered without
//! gaps, that ends in one closing event.

use vstd::prelude::*;

use crate::crypto;
use crate::error;
use crate::error::ApiError;
use crate::ids::Uuid;
use crate::json::{json_value, parse_json, zeroize_json_value, Json};
use crate::settlement::is_id;
use crate::standard_data;
use crate::standard_data::{StorageDirection, STORAGE_VERSION};
use crate::text;

verus! {

/// The inference endpoint that a job is for.
#[derive(Clone, Copy, Debug, PartialEq, Eq, Structural)]
pub enum Endpoint {
    ChatCompletions,
    Completions,
    Other,
}

/// What an event of a stream is.
#[derive(Clone, Copy, Debug, PartialEq, Eq, Structural)]
pub enum JobStreamEventKind {
    Data,
    UpstreamDone,
}

pub open spec fn bad_event(message: &'static str) -> Option<ApiError> {
    Some(ApiError::bad_request("invalid_stream_event", message))
}

fn refuse_event(message: &'static str) -> (refused: Result<(), ApiError>)
    ensures
        refused == Err::<(), ApiError>(ApiError::bad_request("invalid_stream_event", message)),
{
    Err(ApiError::bad_request("invalid_stream_event", message))
}

/// The type that an endpoint gives its stream objects.
pub open spec fn chunk_type(endpoint: Endpoint) -> Option<Seq<char>> {
    match endpoint {
        Endpoint::ChatCompletions => Some("chat.completion.chunk"@),
        Endpoint::Completions => Some("text_completion"@),
        Endpoint::Other => None,
    }
}

/// The metadata of a chunk name its type, the authorised model, a short identifier
/// and a time of creation.
pub open spec fn metadata_valid(data: Json, chunk_type: Seq<char>, model: Seq<char>) -> bool {
    &&& data.member_text("object"@) == Some(chunk_type)
    &&& data.member_text("model"@) == Some(model)
    &&& data.member_text("id"@) matches Some(id) && id.len() > 0 && text::byte_length(id) <= 256
    &&& data.member("created"@) matches Some(created) && created.signed() is Some
}

fn check_metadata(data: &Json, chunk_type: &str, model: &str) -> (valid: bool)
    ensures
        valid == metadata_valid(*data, chunk_type@, model@),
{
    if !data.member_is("object", chunk_type) || !data.member_is("model", model) {
        return false;
    }
    let id_valid = match data.get("id") {
        Some(id) => match id.as_str() {
            Some(id) => !id.is_empty() && text::bytes_in(id) <= 256,
            None => false,
        },
        None => false,
    };
    let created_valid = match data.get("created") {
        Some(created) => created.as_i64().is_some(),
        None => false,
    };
    id_valid && created_valid
}

/// What is wrong with one choice of a chunk, if anything is.
pub open spec fn choice_refusal(endpoint: Endpoint, choices: int, choice: Json) -> Option<
    ApiError,
> {
    if !(choice is Object) {
        bad_event("SSE choice 必须是对象")
    } else if !(choice.member_unsigned("index"@) matches Some(index) && index < choices) {
        bad_event("SSE choice index 超出授权范围")
    } else if !choice.member_is_optional_text("finish_reason"@) {
        bad_event("SSE finish_reason 类型无效")
    } else {
        match endpoint {
            Endpoint::ChatCompletions => match choice.member("delta"@) {
                Some(delta) => if !(delta is Object) {
                    bad_event("聊天 SSE 缺少 delta")
                } else if !delta.member_is_optional_text("content"@)
                    || !delta.member_is_optional_text("reasoning_content"@)
                    || !delta.member_is_optional_text("role"@) {
                    bad_event("聊天 SSE delta 字段类型无效")
                } else {
                    None
                },
                None => bad_event("聊天 SSE 缺少 delta"),
            },
            Endpoint::Completions => if choice.member_text("text"@) is None {
                bad_event("补全 SSE choice 缺少 text")
            } else {
                None
            },
            Endpoint::Other => Some(ApiError::internal()),
        }
    }
}

fn check_choice(endpoint: Endpoint, choices: u64, choice: &Json) -> (checked: Result<(), ApiError>)
    ensures
        checked == error::unless(choice_refusal(endpoint, choices as int, *choice), ()),
{
    if !choice.is_object() {
        return refuse_event("SSE choice 必须是对象");
    }
    match choice.get_u64("index") {
        Some(index) => if index >= choices {
            return refuse_event("SSE choice index 超出授权范围");
        },
        None => {
            return refuse_event("SSE choice index 超出授权范围");
        },
    }
    if !choice.has_optional_text("finish_reason") {
        return refuse_event("SSE finish_reason 类型无效");
    }
    match endpoint {
        Endpoint::ChatCompletions => match choice.get("delta") {
            Some(delta) => {
                if !delta.is_object() {
                    return refuse_event("聊天 SSE 缺少 delta");
                }
                if !delta.has_optional_text("content") || !delta.has_optional_text(
                    "reasoning_content",
                ) || !delta.has_optional_text("role") {
                    return refuse_event("聊天 SSE delta 字段类型无效");
                }
                Ok(())
            },
            None => refuse_event("聊天 SSE 缺少 delta"),
        },
        Endpoint::Completions => {
            let has_text = match choice.get("text") {
                Some(text) => text.as_str().is_some(),
                None => false,
            };
            if !has_text {
                return refuse_event("补全 SSE choice 缺少 text");
            }
            Ok(())
        },
        Endpoint::Other => Err(ApiError::internal()),
    }
}

/// What is wrong with the first choice that has something wrong with it.
pub open spec fn choices_refusal(
    endpoint: Endpoint,
    authorized: int,
    choices: Seq<Json>,
) -> Option<ApiError>
    decreases choices.len(),
{
    if choices.len() == 0 {
        None
    } else {
        match choice_refusal(endpoint, authorized, choices[0]) {
            Some(refused) => Some(refused),
            None => choices_refusal(endpoint, authorized, choices.drop_first()),
        }
    }
}

fn check_choices(endpoint: Endpoint, authorized: u64, choices: &Vec<Json>) -> (checked: Result<
    (),
    ApiError,
>)
    ensures
        checked == error::unless(choices_refusal(endpoint, authorized as int, choices@), ()),
{
    let mut i: usize = 0;
    assert(choices@.skip(0) =~= choices@);
    while i < choices.len()
        invariant
            i <= choices@.len(),
            choices_refusal(endpoint, authorized as int, choices@) == choices_refusal(
                endpoint,
                authorized as int,
                choices@.skip(i as int),
            ),
        decreases choices@.len() - i,
    {
        assert(choices@.skip(i as int).drop_first() =~= choices@.skip(i + 1));
        assert(choices@.skip(i as int)[0] == choices@[i as int]);
        check_choice(endpoint, authorized, &choices[i])?;
        i += 1;
    }
    Ok(())
}

/// What is wrong with the usage of a chunk, if it has one.
pub open spec fn usage_refusal(usage: Option<Json>) -> Option<ApiError> {
    match usage {
        None => None,
        Some(usage) => if !(usage is Object) {
            bad_event("SSE usage 必须是对象")
        } else {
            match (
                usage.member_unsigned("prompt_tokens"@),
                usage.member_unsigned("completion_tokens"@),
                usage.member_unsigned("total_tokens"@),
            ) {
                (None, _, _) => bad_event("SSE usage 缺少 prompt_tokens"),
                (_, None, _) => bad_event("SSE usage 缺少 completion_tokens"),
                (_, _, None) => bad_event("SSE usage 缺少 total_tokens"),
                (Some(prompt), Some(completion), Some(total)) => if prompt + completion != total {
                    bad_event("SSE usage Token 总数不一致")
                } else {
                    None
                },
            }
        },
    }
}

fn check_usage_member(usage: Option<&Json>) -> (checked: Result<(), ApiError>)
    ensures
        checked == error::unless(
            usage_refusal(
                match usage {
                    Some(usage) => Some(*usage),
                    None => None,
                },
            ),
            (),
        ),
{
    match usage {
        None => Ok(()),
        Some(usage) => {
            if !usage.is_object() {
                return refuse_event("SSE usage 必须是对象");
            }
            let prompt: u64 = match usage.get_u64("prompt_tokens") {
                Some(prompt) => prompt,
                None => {
                    return refuse_event("SSE usage 缺少 prompt_tokens");
                },
            };
            let completion: u64 = match usage.get_u64("completion_tokens") {
                Some(completion) => completion,
                None => {
                    return refuse_event("SSE usage 缺少 completion_tokens");
                },
            };
            let total: u64 = match usage.get_u64("total_tokens") {
                Some(total) => total,
                None => {
                    return refuse_event("SSE usage 缺少 total_tokens");
                },
            };
            match prompt.checked_add(completion) {
                Some(sum) => if sum != total {
                    return refuse_event("SSE usage Token 总数不一致");
                },
                None => {
                    return refuse_event("SSE usage Token 总数不一致");
                },
            }
            Ok(())
        },
    }
}

/// The number of choices that a request authorises.
pub open spec fn authorized_choices(requested: Option<u64>) -> u64 {
    match requested {
        Some(requested) => requested,
        None => 1,
    }
}

/// What is wrong with the data of an event, if anything is. `None` stands for a text
/// that is no JSON.
pub open spec fn stream_data_refusal(
    endpoint: Endpoint,
    requested_choices: Option<u64>,
    model: Seq<char>,
    data: Option<Json>,
) -> Option<ApiError> {
    match (data, chunk_type(endpoint)) {
        (None, _) => bad_event("SSE data 不是合法 JSON"),
        (Some(data), chunk_type) => if !(data is Object) {
            bad_event("SSE data 必须是 JSON 对象")
        } else if chunk_type is None {
            Some(ApiError::internal())
        } else if !metadata_valid(data, chunk_type->0, model) {
            bad_event("SSE 元数据与任务端点或授权模型不一致")
        } else {
            let authorized = authorized_choices(requested_choices);
            match data.member("choices"@) {
                Some(Json::Array(choices)) => if authorized > usize::MAX {
                    Some(ApiError::internal())
                } else if choices@.len() > authorized {
                    bad_event("SSE choices 超过任务授权数量")
                } else if let Some(refused) = choices_refusal(
                    endpoint,
                    authorized as int,
                    choices@,
                ) {
                    Some(refused)
                } else {
                    usage_refusal(data.member("usage"@))
                },
                _ => bad_event("SSE data 缺少 choices"),
            }
        },
    }
}

/// Checks the data of an event: an object of the endpoint's type for the authorised
/// model, with no more choices than were asked for, each of the right shape, and a
/// usage that adds up where there is one.
pub fn validate_standard_stream_data(
    endpoint: Endpoint,
    requested_choices: Option<u64>,
    authorized_model: &str,
    data: &Option<Json>,
) -> (valid: Result<(), ApiError>)
    ensures
        valid == error::unless(
            stream_data_refusal(endpoint, requested_choices, authorized_model@, *data),
            (),
        ),
{
    let data = match data {
        Some(data) => data,
        None => {
            return refuse_event("SSE data 不是合法 JSON");
        },
    };
    if !data.is_object() {
        return refuse_event("SSE data 必须是 JSON 对象");
    }
    let chunk_type = match endpoint {
        Endpoint::ChatCompletions => "chat.completion.chunk",
        Endpoint::Completions => "text_completion",
        Endpoint::Other => {
            return Err(ApiError::internal());
        },
    };
    if !check_metadata(data, chunk_type, authorized_model) {
        return refuse_event("SSE 元数据与任务端点或授权模型不一致");
    }
    let authorized: u64 = match requested_choices {
        Some(requested) => requested,
        None => 1,
    };
    let choices = match data.get("choices") {
        Some(choices) => match choices.as_array() {
            Some(choices) => choices,
            None => {
                return refuse_event("SSE data 缺少 choices");
            },
        },
        None => {
            return refuse_event("SSE data 缺少 choices");
        },
    };
    if authorized as u128 > usize::MAX as u128 {
        return Err(ApiError::internal());
    }
    if choices.len() > authorized as usize {
        return refuse_event("SSE choices 超过任务授权数量");
    }
    check_choices(endpoint, authorized, choices)?;
    check_usage_member(data.get("usage"))
}

/// The number of choices that a request asks for, if it names one.
pub open spec fn choices_asked_for(request: Json) -> Option<u64> {
    request.member_unsigned("n"@)
}

pub fn requested_choices(request: &Json) -> (choices: Option<u64>)
    ensures
        choices == choices_asked_for(*request),
{
    request.get_u64("n")
}

/// Reads the text of an event and checks it; what was read of it is wiped.
pub fn validate_standard_stream_text(
    endpoint: Endpoint,
    requested_choices: Option<u64>,
    authorized_model: &str,
    data: &str,
) -> (valid: Result<(), ApiError>)
    ensures
        valid == error::unless(
            stream_data_refusal(
                endpoint,
                requested_choices,
                authorized_model@,
                json_value(data@),
            ),
            (),
        ),
{
    let parsed = parse_json(data);
    let valid = validate_standard_stream_data(
        endpoint,
        requested_choices,
        authorized_model,
        &parsed,
    );
    wipe(parsed);
    valid
}

fn wipe(parsed: Option<Json>) {
    if let Some(value) = parsed {
        let mut value = value;
        zeroize_json_value(&mut value);
    }
}

/// A request to append one event to a stream.
pub struct JobStreamEventRequest {
    pub node_id: Uuid,
    pub attempt: i32,
    pub sequence: i32,
    pub idempotency_key: String,
    pub kind: JobStreamEventKind,
    pub event_data: Option<String>,
}

/// What the database holds of a streaming job and of its lease. Times are
/// nanoseconds since the Unix epoch.
pub struct StreamJobRow {
    pub node_user_id: Uuid,
    pub leased_to_node_id: Option<Uuid>,
    pub claim_device_bound: bool,
    pub status: String,
    pub lease_expires_at: Option<i128>,
    pub attempt_count: i32,
    pub confidentiality: String,
}

pub open spec fn append_refusal(
    row: StreamJobRow,
    worker_user_id: Uuid,
    request: JobStreamEventRequest,
    now: i128,
) -> Option<ApiError> {
    if row.node_user_id != worker_user_id || row.leased_to_node_id != Some(request.node_id)
        || !row.claim_device_bound {
        Some(ApiError::forbidden("任务租约不属于当前节点设备"))
    } else if row.status@ != "leased"@ || !(row.lease_expires_at matches Some(expiry) && expiry
        > now) || row.attempt_count != request.attempt {
        Some(
            ApiError::conflict(
                "stream_lease_invalid",
                "流式事件租约不存在、已过期或 attempt 不匹配",
            ),
        )
    } else if row.confidentiality@ != "standard"@ {
        Some(
            ApiError::bad_request(
                "stream_not_supported",
                "Regulated 任务当前不支持流式事件，且不会降级为 Standard",
            ),
        )
    } else {
        None
    }
}

/// Checks that an event comes from the device that holds the lease, within the
/// lease and for its attempt, and that the job is a Standard job.
pub fn authorize_append(
    row: &StreamJobRow,
    worker_user_id: Uuid,
    request: &JobStreamEventRequest,
    now: i128,
) -> (authorized: Result<(), ApiError>)
    ensures
        authorized == error::unless(append_refusal(*row, worker_user_id, *request, now), ()),
{
    if row.node_user_id != worker_user_id || !is_id(row.leased_to_node_id, request.node_id)
        || !row.claim_device_bound {
        return Err(ApiError::forbidden("任务租约不属于当前节点设备"));
    }
    let alive = match row.lease_expires_at {
        Some(expiry) => expiry > now,
        None => false,
    };
    if !text::same_text(row.status.as_str(), "leased") || !alive || row.attempt_count
        != request.attempt {
        return Err(
            ApiError::conflict(
                "stream_lease_invalid",
                "流式事件租约不存在、已过期或 attempt 不匹配",
            ),
        );
    }
    if !text::same_text(row.confidentiality.as_str(), "standard") {
        return Err(
            ApiError::bad_request(
                "stream_not_supported",
                "Regulated 任务当前不支持流式事件，且不会降级为 Standard",
            ),
        );
    }
    Ok(())
}

/// A job streams if its payload asks for it; such a job has a single attempt, so
/// that no second attempt is ever joined to output that was seen.
pub fn check_stream_requested(stream: bool, max_attempts: i32) -> (checked: Result<(), ApiError>)
    ensures
        checked == if stream && max_attempts == 1 {
            Ok::<(), ApiError>(())
        } else {
            Err::<(), ApiError>(
                ApiError::bad_request("stream_not_requested", "任务没有请求可恢复的 Standard SSE"),
            )
        },
{
    if !stream || max_attempts != 1 {
        return Err(
            ApiError::bad_request("stream_not_requested", "任务没有请求可恢复的 Standard SSE"),
        );
    }
    Ok(())
}

/// What a stream adds up to so far.
#[derive(Clone, Copy, Debug, PartialEq, Eq, Structural)]
pub struct StreamTotals {
    pub event_count: i64,
    pub total_bytes: i64,
    pub upstream_done: bool,
}

/// How long a stream can get.
#[derive(Clone, Copy, Debug, PartialEq, Eq, Structural)]
pub struct StreamBounds {
    pub max_events: i32,
    pub max_total_bytes: i64,
}

/// The size of the event that may be appended, or why none may.
pub open spec fn append_plan(
    totals: StreamTotals,
    bounds: StreamBounds,
    request: JobStreamEventRequest,
    data_refusal: Option<ApiError>,
) -> Result<i32, ApiError> {
    if totals.event_count != request.sequence || totals.event_count >= bounds.max_events {
        Err(
            ApiError::conflict(
                "stream_sequence_mismatch",
                "流式事件必须按连续 sequence 只追加提交",
            ),
        )
    } else if totals.upstream_done {
        Err(ApiError::conflict("stream_already_done", "upstream_done 之后不得追加流式事件"))
    } else {
        match (request.kind, request.event_data, data_refusal) {
            (JobStreamEventKind::Data, None, _) => Err(ApiError::internal()),
            (JobStreamEventKind::Data, Some(_), Some(refused)) => Err(refused),
            (JobStreamEventKind::Data, Some(data), None) => if text::byte_length(data@)
                > i32::MAX {
                Err(ApiError::internal())
            } else if totals.total_bytes + text::byte_length(data@) > bounds.max_total_bytes
                || totals.total_bytes + text::byte_length(data@) > i64::MAX {
                Err(ApiError::bad_request("stream_too_large", "流式事件累计正文超过安全上限"))
            } else {
                Ok(text::byte_length(data@) as i32)
            },
            (JobStreamEventKind::UpstreamDone, _, _) => if totals.event_count == 0 {
                Err(
                    ApiError::bad_request(
                        "invalid_stream_event",
                        "upstream_done 之前至少需要一个真实 data 事件",
                    ),
                )
            } else {
                Ok(0)
            },
        }
    }
}

/// Decides whether an event may be appended: it must carry the next number, come
/// before the closing event, be valid, and keep the stream within its bounds. The
/// closing event needs something to close. `parsed` is what the data of the event
/// is in JSON.
pub fn plan_append(
    totals: StreamTotals,
    bounds: StreamBounds,
    request: &JobStreamEventRequest,
    endpoint: Endpoint,
    requested_choices: Option<u64>,
    authorized_model: &str,
    parsed: &Option<Json>,
) -> (size: Result<i32, ApiError>)
    ensures
        size == append_plan(
            totals,
            bounds,
            *request,
            stream_data_refusal(endpoint, requested_choices, authorized_model@, *parsed),
        ),
{
    if totals.event_count != request.sequence as i64 || totals.event_count
        >= bounds.max_events as i64 {
        return Err(
            ApiError::conflict(
                "stream_sequence_mismatch",
                "流式事件必须按连续 sequence 只追加提交",
            ),
        );
    }
    if totals.upstream_done {
        return Err(ApiError::conflict("stream_already_done", "upstream_done 之后不得追加流式事件"));
    }
    match request.kind {
        JobStreamEventKind::Data => {
            let data = match &request.event_data {
                Some(data) => data,
                None => {
                    return Err(ApiError::internal());
                },
            };
            validate_standard_stream_data(endpoint, requested_choices, authorized_model, parsed)?;
            let length = text::bytes_in(data.as_str());
            if length > i32::MAX as usize {
                return Err(ApiError::internal());
            }
            let total = totals.total_bytes.checked_add(length as i64);
            match total {
                Some(total) => if total > bounds.max_total_bytes {
                    return Err(
                        ApiError::bad_request("stream_too_large", "流式事件累计正文超过安全上限"),
                    );
                },
                None => {
                    return Err(
                        ApiError::bad_request("stream_too_large", "流式事件累计正文超过安全上限"),
                    );
                },
            }
            Ok(length as i32)
        },
        JobStreamEventKind::UpstreamDone => {
            if totals.event_count == 0 {
                return Err(
                    ApiError::bad_request(
                        "invalid_stream_event",
                        "upstream_done 之前至少需要一个真实 data 事件",
                    ),
                );
            }
            Ok(0)
        },
    }
}

/// The kinds of the events of a stream, in the order of their numbers: data, and
/// after some data perhaps one closing event.
pub open spec fn is_stream(log: Seq<JobStreamEventKind>) -> bool {
    &&& forall|i: int| 0 <= i < log.len() - 1 ==> log[i] == JobStreamEventKind::Data
    &&& log.len() > 0 ==> log[0] == JobStreamEventKind::Data
}

/// The totals that belong to a stream.
pub open spec fn totals_of(totals: StreamTotals, log: Seq<JobStreamEventKind>) -> bool {
    &&& totals.event_count == log.len()
    &&& totals.upstream_done == log.contains(JobStreamEventKind::UpstreamDone)
}

/// Appending keeps a stream a stream: the new event carries the next number, and
/// nothing ever follows the closing event.
pub proof fn appending_keeps_streams(
    log: Seq<JobStreamEventKind>,
    totals: StreamTotals,
    bounds: StreamBounds,
    request: JobStreamEventRequest,
    data_refusal: Option<ApiError>,
)
    requires
        is_stream(log),
        totals_of(totals, log),
        append_plan(totals, bounds, request, data_refusal) is Ok,
    ensures
        is_stream(log.push(request.kind)),
        request.sequence == log.len(),
        log.len() < bounds.max_events,
{
    let longer = log.push(request.kind);
    assert forall|i: int| 0 <= i < longer.len() - 1 implies longer[i]
        == JobStreamEventKind::Data by {
        if log[i] == JobStreamEventKind::UpstreamDone {
            assert(log.contains(JobStreamEventKind::UpstreamDone));
        }
    }
}

/// What the database reports of a stream when a result is handed in.
#[derive(Clone, Copy, Debug, PartialEq, Eq, Structural)]
pub struct StreamTranscript {
    pub event_count: i64,
    pub first_sequence: i32,
    pub last_sequence: i32,
    pub done_count: i64,
    pub done_sequence: i32,
}

impl StreamTranscript {
    /// At least one data event, numbered without gaps, and one closing event at the
    /// end.
    pub open spec fn complete(self) -> bool {
        &&& self.event_count >= 2
        &&& self.first_sequence == 0
        &&& self.last_sequence == self.event_count - 1
        &&& self.done_count == 1
        &&& self.done_sequence == self.last_sequence
    }
}

/// A streaming job can be settled only once its stream is complete.
pub fn check_transcript(transcript: StreamTranscript) -> (checked: Result<(), ApiError>)
    ensures
        checked == if transcript.complete() {
            Ok::<(), ApiError>(())
        } else {
            Err::<(), ApiError>(
                ApiError::conflict(
                    "stream_incomplete",
                    "SSE 结果只有在连续事件和 upstream_done 已持久确认后才能结算",
                ),
            )
        },
{
    if transcript.event_count < 2 || transcript.first_sequence != 0
        || transcript.last_sequence as i64 != transcript.event_count - 1 || transcript.done_count
        != 1 || transcript.done_sequence != transcript.last_sequence {
        return Err(
            ApiError::conflict(
                "stream_incomplete",
                "SSE 结果只有在连续事件和 upstream_done 已持久确认后才能结算",
            ),
        );
    }
    Ok(())
}

/// The report of a stream: its length, its first and last number, and how often and
/// where it is closed.
pub open spec fn transcript_of(
    transcript: StreamTranscript,
    log: Seq<JobStreamEventKind>,
) -> bool {
    let closings = log.filter(|kind: JobStreamEventKind| kind == JobStreamEventKind::UpstreamDone);
    &&& transcript.event_count == log.len()
    &&& transcript.first_sequence == if log.len() > 0 {
        0int
    } else {
        -1
    }
    &&& transcript.last_sequence == log.len() - 1
    &&& transcript.done_count == closings.len()
    &&& closings.len() > 0 ==> 0 <= transcript.done_sequence < log.len()
        && log[transcript.done_sequence as int] == JobStreamEventKind::UpstreamDone
    &&& closings.len() == 0 ==> transcript.done_sequence == -1
}

/// The check of a transcript finds out exactly whether a stream was closed.
pub proof fn complete_transcripts_are_closed_streams(
    log: Seq<JobStreamEventKind>,
    transcript: StreamTranscript,
)
    requires
        is_stream(log),
        transcript_of(transcript, log),
    ensures
        transcript.complete() <==> log.len() > 0 && log.last() == JobStreamEventKind::UpstreamDone,
{
    let closing = |kind: JobStreamEventKind| kind == JobStreamEventKind::UpstreamDone;
    if log.len() > 0 {
        let data = log.drop_last();
        assert(log =~= data.push(log.last()));
        lemma_no_closings(data);
        reveal(Seq::filter);
        assert(log.drop_last() =~= data);
        if log.last() == JobStreamEventKind::UpstreamDone {
            assert(log.filter(closing).len() == 1);
            assert(log.len() >= 2);
        } else {
            assert(log.filter(closing).len() == 0);
        }
    } else {
        reveal(Seq::filter);
    }
}

proof fn lemma_no_closings(log: Seq<JobStreamEventKind>)
    requires
        forall|i: int| 0 <= i < log.len() ==> log[i] == JobStreamEventKind::Data,
    ensures
        log.filter(|kind: JobStreamEventKind| kind == JobStreamEventKind::UpstreamDone).len() == 0,
    decreases log.len(),
{
    reveal(Seq::filter);
    if log.len() > 0 {
        lemma_no_closings(log.drop_last());
    }
}

/// An event as the database holds it.
pub struct StoredEvent {
    pub sequence: i32,
    pub storage_version: Option<i16>,
    pub ciphertext: Option<String>,
    pub plaintext_bytes: i32,
}

/// An event as it is read.
pub struct JobStreamEvent {
    pub sequence: i32,
    pub event_data: String,
}

/// The text of a stored data event, if it is stored whole.
pub open spec fn stored_event_text(
    key: Seq<u8>,
    job_id: Uuid,
    attempt: i32,
    event: StoredEvent,
) -> Option<Seq<char>> {
    match event.ciphertext {
        Some(ciphertext) => if event.storage_version != Some(STORAGE_VERSION) {
            None
        } else {
            match standard_data::stored_value(
                key,
                job_id,
                StorageDirection::StreamEvent {
                    attempt_number: attempt,
                    sequence_number: event.sequence,
                },
                ciphertext@,
            ) {
                Some(plaintext) => if plaintext.len() != event.plaintext_bytes {
                    None
                } else {
                    text::decoded(plaintext)
                },
                None => None,
            }
        },
        None => None,
    }
}

fn open_event(key: &[u8; 32], job_id: Uuid, attempt: i32, event: &StoredEvent) -> (opened: Option<
    JobStreamEvent,
>)
    ensures
        match opened {
            Some(opened) => stored_event_text(key@, job_id, attempt, *event) == Some(
                opened.event_data@,
            ) && opened.sequence == event.sequence,
            None => stored_event_text(key@, job_id, attempt, *event) is None,
        },
{
    match (&event.ciphertext, event.storage_version) {
        (Some(ciphertext), Some(version)) => {
            if version != STORAGE_VERSION {
                return None;
            }
            match standard_data::decrypt_from_storage(
                key,
                job_id,
                StorageDirection::StreamEvent {
                    attempt_number: attempt,
                    sequence_number: event.sequence,
                },
                ciphertext.as_str(),
            ) {
                Ok(plaintext) => {
                    if event.plaintext_bytes < 0 || plaintext.len()
                        != event.plaintext_bytes as usize {
                        return None;
                    }
                    match text::from_utf8(plaintext) {
                        Some(event_data) => Some(
                            JobStreamEvent { sequence: event.sequence, event_data },
                        ),
                        None => None,
                    }
                },
                Err(_) => None,
            }
        },
        _ => None,
    }
}

/// Opens stored events in their order, up to the first that is not stored whole.
/// The flag says whether all of them were opened.
pub fn open_events(
    key: &[u8; 32],
    job_id: Uuid,
    attempt: i32,
    rows: &Vec<StoredEvent>,
) -> (opened: (Vec<JobStreamEvent>, bool))
    ensures
        opened.0@.len() <= rows@.len(),
        forall|i: int|
            0 <= i < opened.0@.len() ==> stored_event_text(key@, job_id, attempt, rows@[i])
                == Some((#[trigger] opened.0@[i]).event_data@) && opened.0@[i].sequence
                == rows@[i].sequence,
        opened.1 == (opened.0@.len() == rows@.len()),
        !opened.1 ==> stored_event_text(
            key@,
            job_id,
            attempt,
            rows@[opened.0@.len() as int],
        ) is None,
{
    let mut events: Vec<JobStreamEvent> = Vec::new();
    let mut i: usize = 0;
    while i < rows.len()
        invariant
            i <= rows@.len(),
            events@.len() == i,
            forall|j: int|
                0 <= j < i ==> stored_event_text(key@, job_id, attempt, rows@[j]) == Some(
                    (#[trigger] events@[j]).event_data@,
                ) && events@[j].sequence == rows@[j].sequence,
        decreases rows@.len() - i,
    {
        match open_event(key, job_id, attempt, &rows[i]) {
            Some(event) => {
                events.push(event);
            },
            None => {
                return (events, false);
            },
        }
        i += 1;
    }
    (events, true)
}

/// An event that was opened for a reader: its number, and what its data is in JSON.
pub struct ParsedEvent {
    pub sequence: i32,
    pub data: Option<Json>,
}

/// The number that a reader goes on from, or what is wrong with the first event that
/// has something wrong with it.
pub open spec fn read_position(
    endpoint: Endpoint,
    requested_choices: Option<u64>,
    model: Seq<char>,
    next: i32,
    events: Seq<ParsedEvent>,
    complete: bool,
) -> Result<i32, ApiError>
    decreases events.len(),
{
    if events.len() == 0 {
        if complete {
            Ok(next)
        } else {
            Err(ApiError::internal())
        }
    } else if let Some(refused) = stream_data_refusal(
        endpoint,
        requested_choices,
        model,
        events[0].data,
    ) {
        Err(refused)
    } else if events[0].sequence == i32::MAX {
        Err(ApiError::internal())
    } else {
        read_position(
            endpoint,
            requested_choices,
            model,
            (events[0].sequence + 1) as i32,
            events.drop_first(),
            complete,
        )
    }
}

/// Checks events that were read, in their order, and says where the reader goes on.
/// `complete` says whether all stored events could be opened.
pub fn check_read(
    from_sequence: i32,
    events: &Vec<ParsedEvent>,
    complete: bool,
    endpoint: Endpoint,
    requested_choices: Option<u64>,
    authorized_model: &str,
) -> (next: Result<i32, ApiError>)
    ensures
        next == read_position(
            endpoint,
            requested_choices,
            authorized_model@,
            from_sequence,
            events@,
            complete,
        ),
{
    let mut next: i32 = from_sequence;
    let mut i: usize = 0;
    assert(events@.skip(0) =~= events@);
    while i < events.len()
        invariant
            i <= events@.len(),
            read_position(
                endpoint,
                requested_choices,
                authorized_model@,
                from_sequence,
                events@,
                complete,
            ) == read_position(
                endpoint,
                requested_choices,
                authorized_model@,
                next,
                events@.skip(i as int),
                complete,
            ),
        decreases events@.len() - i,
    {
        assert(events@.skip(i as int)[0] == events@[i as int]);
        assert(events@.skip(i as int).drop_first() =~= events@.skip(i + 1));
        validate_standard_stream_data(
            endpoint,
            requested_choices,
            authorized_model,
            &events[i].data,
        )?;
        match events[i].sequence.checked_add(1) {
            Some(after) => {
                next = after;
            },
            None => {
                return Err(ApiError::internal());
            },
        }
        i += 1;
    }
    if complete {
        Ok(next)
    } else {
        Err(ApiError::internal())
    }
}

/// What the texts of events are in JSON.
pub open spec fn parsed_events(events: Seq<JobStreamEvent>) -> Seq<ParsedEvent> {
    Seq::new(
        events.len(),
        |i: int|
            ParsedEvent { sequence: events[i].sequence, data: json_value(events[i].event_data@) },
    )
}

/// Reads and checks events that were opened for a reader, in their order, and says where
/// the reader goes on. `complete` says whether all stored events could be opened.
pub fn finish_read(
    from_sequence: i32,
    events: &Vec<JobStreamEvent>,
    complete: bool,
    endpoint: Endpoint,
    requested_choices: Option<u64>,
    authorized_model: &str,
) -> (next: Result<i32, ApiError>)
    ensures
        next == read_position(
            endpoint,
            requested_choices,
            authorized_model@,
            from_sequence,
            parsed_events(events@),
            complete,
        ),
{
    let mut parsed: Vec<ParsedEvent> = Vec::new();
    let mut i: usize = 0;
    while i < events.len()
        invariant
            i <= events@.len(),
            parsed@ == parsed_events(events@).take(i as int),
        decreases events@.len() - i,
    {
        let event = ParsedEvent {
            sequence: events[i].sequence,
            data: parse_json(events[i].event_data.as_str()),
        };
        parsed.push(event);
        assert(parsed@ =~= parsed_events(events@).take(i + 1));
        i += 1;
    }
    assert(parsed@ =~= parsed_events(events@));
    let next = check_read(
        from_sequence,
        &parsed,
        complete,
        endpoint,
        requested_choices,
        authorized_model,
    );
    while parsed.len() > 0
        decreases parsed.len(),
    {
        if let Some(event) = parsed.pop() {
            wipe(event.data);
        }
    }
    next
}

/// An event that the database holds under a number or a key.
pub struct ExistingEvent {
    pub attempt: i32,
    pub sequence: i32,
    pub idempotency_key: String,
    pub event_kind: String,
    pub ciphertext: Option<String>,
    pub storage_version: Option<i16>,
    pub plaintext_bytes: i32,
}

impl JobStreamEventKind {
    pub open spec fn name(self) -> Seq<char> {
        match self {
            JobStreamEventKind::Data => "data"@,
            JobStreamEventKind::UpstreamDone => "upstream_done"@,
        }
    }

    /// The name under which the database holds the kind.
    pub fn db_name(self) -> (name: &'static str)
        ensures
            name@ == self.name(),
    {
        match self {
            JobStreamEventKind::Data => "data",
            JobStreamEventKind::UpstreamDone => "upstream_done",
        }
    }
}

pub open spec fn replay_refusal(
    key: Seq<u8>,
    job_id: Uuid,
    request: JobStreamEventRequest,
    existing: ExistingEvent,
) -> Option<ApiError> {
    if existing.attempt != request.attempt || existing.sequence != request.sequence
        || existing.idempotency_key@ != request.idempotency_key@ || existing.event_kind@
        != request.kind.name() {
        Some(
            ApiError::conflict(
                "idempotency_binding_mismatch",
                "流式事件 sequence 或幂等键已绑定到不同事件",
            ),
        )
    } else {
        match request.kind {
            JobStreamEventKind::Data => match (
                existing.storage_version,
                existing.ciphertext,
                request.event_data,
            ) {
                (Some(version), Some(ciphertext), Some(supplied)) => if version
                    != STORAGE_VERSION {
                    Some(ApiError::internal())
                } else {
                    match standard_data::stored_value(
                        key,
                        job_id,
                        StorageDirection::StreamEvent {
                            attempt_number: request.attempt,
                            sequence_number: request.sequence,
                        },
                        ciphertext@,
                    ) {
                        None => Some(ApiError::internal()),
                        Some(plaintext) => if plaintext == vstd::utf8::encode_utf8(supplied@)
                            && text::byte_length(supplied@) > i32::MAX {
                            Some(ApiError::internal())
                        } else if plaintext != vstd::utf8::encode_utf8(supplied@)
                            || existing.plaintext_bytes != text::byte_length(supplied@) {
                            Some(
                                ApiError::conflict(
                                    "idempotency_binding_mismatch",
                                    "流式事件幂等键已绑定到不同正文",
                                ),
                            )
                        } else {
                            None
                        },
                    }
                },
                _ => Some(ApiError::internal()),
            },
            JobStreamEventKind::UpstreamDone => if existing.ciphertext is Some
                || existing.storage_version is Some || existing.plaintext_bytes != 0 {
                Some(ApiError::internal())
            } else {
                None
            },
        }
    }
}

/// Checks that an event repeats, in every part, the one that is stored under its
/// number or its key.
pub fn validate_stream_event_replay(
    key: &[u8; 32],
    job_id: Uuid,
    request: &JobStreamEventRequest,
    existing: &ExistingEvent,
) -> (valid: Result<(), ApiError>)
    ensures
        valid == error::unless(replay_refusal(key@, job_id, *request, *existing), ()),
{
    if existing.attempt != request.attempt || existing.sequence != request.sequence
        || !text::same_text(existing.idempotency_key.as_str(), request.idempotency_key.as_str())
        || !text::same_text(existing.event_kind.as_str(), request.kind.db_name()) {
        return Err(
            ApiError::conflict(
                "idempotency_binding_mismatch",
                "流式事件 sequence 或幂等键已绑定到不同事件",
            ),
        );
    }
    match request.kind {
        JobStreamEventKind::Data => {
            match existing.storage_version {
                Some(version) => if version != STORAGE_VERSION {
                    return Err(ApiError::internal());
                },
                None => {
                    return Err(ApiError::internal());
                },
            }
            let ciphertext = match &existing.ciphertext {
                Some(ciphertext) => ciphertext,
                None => {
                    return Err(ApiError::internal());
                },
            };
            let mut plaintext = match standard_data::decrypt_from_storage(
                key,
                job_id,
                StorageDirection::StreamEvent {
                    attempt_number: request.attempt,
                    sequence_number: request.sequence,
                },
                ciphertext.as_str(),
            ) {
                Ok(plaintext) => plaintext,
                Err(_) => {
                    return Err(ApiError::internal());
                },
            };
            let supplied = match &request.event_data {
                Some(supplied) => supplied.as_str(),
                None => {
                    return Err(ApiError::internal());
                },
            };
            let same = crypto::constant_time_eq(plaintext.as_slice(), supplied.as_bytes());
            crypto::wipe_bytes(&mut plaintext);
            if same && text::bytes_in(supplied) > i32::MAX as usize {
                return Err(ApiError::internal());
            }
            if !same || existing.plaintext_bytes < 0 || existing.plaintext_bytes as usize
                != text::bytes_in(supplied) {
                return Err(
                    ApiError::conflict(
                        "idempotency_binding_mismatch",
                        "流式事件幂等键已绑定到不同正文",
                    ),
                );
            }
            Ok(())
        },
        JobStreamEventKind::UpstreamDone => {
            if existing.ciphertext.is_some() || existing.storage_version.is_some()
                || existing.plaintext_bytes != 0 {
                return Err(ApiError::internal());
            }
            Ok(())
        },
    }
}

/// An event that was sealed for its place in a stream is accepted there again, with
/// the same key and the same text, and with no other text.
pub proof fn events_are_repeated_exactly(
    key: Seq<u8>,
    job_id: Uuid,
    request: JobStreamEventRequest,
    existing: ExistingEvent,
    sealed: Seq<char>,
)
    requires
        request.kind == JobStreamEventKind::Data,
        request.event_data is Some,
        existing.attempt == request.attempt,
        existing.sequence == request.sequence,
        existing.idempotency_key@ == request.idempotency_key@,
        existing.event_kind@ == "data"@,
        existing.storage_version == Some(STORAGE_VERSION),
        existing.ciphertext is Some,
        standard_data::stored_value(
            key,
            job_id,
            StorageDirection::StreamEvent {
                attempt_number: request.attempt,
                sequence_number: request.sequence,
            },
            existing.ciphertext->0@,
        ) == Some(vstd::utf8::encode_utf8(sealed)),
        existing.plaintext_bytes == text::byte_length(sealed),
    ensures
        replay_refusal(key, job_id, request, existing) is None <==> request.event_data->0@
            == sealed,
{
    vstd::utf8::encode_utf8_decode_utf8(sealed);
    vstd::utf8::encode_utf8_decode_utf8(request.event_data->0@);
}

/// The part of a stream that a reader asks for.
pub struct JobStreamReadQuery {
    pub from_sequence: Option<i32>,
    pub limit: Option<i32>,
}

pub const DEFAULT_PAGE_SIZE: i32 = 8;

pub const MAX_PAGE_SIZE: i32 = 32;

/// Where a reader starts and how many events it gets, or why it gets none.
pub fn stream_page(query: &JobStreamReadQuery, max_events: i32) -> (page: Result<
    (i32, i32),
    ApiError,
>)
    ensures
        page == ({
            let from = match query.from_sequence {
                Some(from) => from,
                None => 0,
            };
            let limit = match query.limit {
                Some(limit) => limit,
                None => DEFAULT_PAGE_SIZE,
            };
            if !(0 <= from <= max_events) {
                Err::<(i32, i32), ApiError>(
                    ApiError::bad_request("invalid_stream_cursor", "from_sequence 超出流式游标范围"),
                )
            } else if !(1 <= limit <= MAX_PAGE_SIZE) {
                Err::<(i32, i32), ApiError>(
                    ApiError::bad_request("invalid_stream_cursor", "流式读取 limit 必须在 1..=32"),
                )
            } else {
                Ok::<(i32, i32), ApiError>((from, limit))
            }
        }),
{
    let from: i32 = match query.from_sequence {
        Some(from) => from,
        None => 0,
    };
    if from < 0 || from > max_events {
        return Err(
            ApiError::bad_request("invalid_stream_cursor", "from_sequence 超出流式游标范围"),
        );
    }
    let limit: i32 = match query.limit {
        Some(limit) => limit,
        None => DEFAULT_PAGE_SIZE,
    };
    if limit < 1 || limit > MAX_PAGE_SIZE {
        return Err(
            ApiError::bad_request("invalid_stream_cursor", "流式读取 limit 必须在 1..=32"),
        );
    }
    Ok((from, limit))
}

/// Checks who reads a stream: the consumer of a Standard job, and nobody else.
pub fn authorize_read(consumer_user_id: Uuid, reader_user_id: Uuid, confidentiality: &str) -> (authorized: Result<
    (),
    ApiError,
>)
    ensures
        authorized == if consumer_user_id != reader_user_id {
            Err::<(), ApiError>(ApiError::forbidden("只有任务消费者可读取流式输出"))
        } else if confidentiality@ != "standard"@ {
            Err::<(), ApiError>(
                ApiError::bad_request(
                    "stream_not_supported",
                    "Regulated 任务当前不支持流式读取，且不会降级为 Standard",
                ),
            )
        } else {
            Ok::<(), ApiError>(())
        },
{
    if consumer_user_id != reader_user_id {
        return Err(ApiError::forbidden("只有任务消费者可读取流式输出"));
    }
    if !text::same_text(confidentiality, "standard") {
        return Err(
            ApiError::bad_request(
                "stream_not_supported",
                "Regulated 任务当前不支持流式读取，且不会降级为 Standard",
            ),
        );
    }
    Ok(())
}

/// A settled job must have a closed stream.
pub fn check_settled_stream(succeeded: bool, upstream_done: bool) -> (checked: Result<(), ApiError>)
    ensures
        checked == if succeeded && !upstream_done {
            Err::<(), ApiError>(ApiError::internal())
        } else {
            Ok::<(), ApiError>(())
        },
{
    if succeeded && !upstream_done {
        return Err(ApiError::internal());
    }
    Ok(())
}

/// An event as it is stored.
pub struct NewEvent {
    pub event_kind: &'static str,
    pub stored_event: Option<String>,
    pub storage_version: Option<i16>,
    pub plaintext_bytes: i32,
}

/// What becomes of an event that a node appends.
pub enum AppendAnswer {
    /// The very same event was taken before.
    Replay,
    /// The event is stored.
    Store(NewEvent),
}

/// An event is stored as what it is: data under seal for its place in the stream, and a
/// closing event without any content.
pub open spec fn stores_event(
    event: NewEvent,
    key: Seq<u8>,
    job_id: Uuid,
    request: JobStreamEventRequest,
) -> bool {
    &&& event.event_kind@ == request.kind.name()
    &&& match request.kind {
        JobStreamEventKind::Data => {
            &&& event.stored_event is Some && request.event_data is Some
            &&& standard_data::stored_value(
                key,
                job_id,
                StorageDirection::StreamEvent {
                    attempt_number: request.attempt,
                    sequence_number: request.sequence,
                },
                event.stored_event->0@,
            ) == Some(vstd::utf8::encode_utf8(request.event_data->0@))
            &&& event.storage_version == Some(STORAGE_VERSION)
            &&& event.plaintext_bytes == text::byte_length(request.event_data->0@)
        },
        JobStreamEventKind::UpstreamDone => {
            &&& event.stored_event is None
            &&& event.storage_version is None
            &&& event.plaintext_bytes == 0
        },
    }
}

/// What a stream is, and what it holds already. `request` is the request that the job
/// was created for.
pub struct StreamState {
    pub stream: bool,
    pub max_attempts: i32,
    pub endpoint: Endpoint,
    pub request: Json,
    pub authorized_model: String,
    pub totals: StreamTotals,
}

/// Why an event is turned away by what the stream is and holds.
pub open spec fn event_refusal(
    key: Seq<u8>,
    job_id: Uuid,
    request: JobStreamEventRequest,
    state: StreamState,
    bounds: StreamBounds,
    existing: Option<ExistingEvent>,
    parsed: Option<Json>,
) -> Option<ApiError> {
    if !state.stream || state.max_attempts != 1 {
        Some(ApiError::bad_request("stream_not_requested", "任务没有请求可恢复的 Standard SSE"))
    } else {
        match existing {
            Some(existing) => replay_refusal(key, job_id, request, existing),
            None => error::refusal(
                append_plan(
                    state.totals,
                    bounds,
                    request,
                    stream_data_refusal(
                        state.endpoint,
                        choices_asked_for(state.request),
                        state.authorized_model@,
                        parsed,
                    ),
                ),
            ),
        }
    }
}

/// What the data of an event is in JSON.
pub open spec fn event_value(request: JobStreamEventRequest) -> Option<Json> {
    match request.event_data {
        Some(data) => json_value(data@),
        None => None,
    }
}

/// An event whose data is too long, or too short, to be sealed.
pub open spec fn unstorable_event(request: JobStreamEventRequest) -> bool {
    request.kind == JobStreamEventKind::Data && (request.event_data matches Some(data)
        && !standard_data::storable(vstd::utf8::encode_utf8(data@)))
}

/// Appends an event to a stream, once `authorize_append` has let it in. `existing` is the
/// event that is stored under its number or its key. Sealing draws on chance, and is an
/// internal error where there is none.
pub fn append_job_stream_event(
    key: &[u8; 32],
    job_id: Uuid,
    request: &JobStreamEventRequest,
    state: &StreamState,
    bounds: StreamBounds,
    existing: &Option<ExistingEvent>,
) -> (answer: Result<AppendAnswer, ApiError>)
    ensures
        match event_refusal(
            key@,
            job_id,
            *request,
            *state,
            bounds,
            *existing,
            event_value(*request),
        ) {
            Some(refused) => answer == Err::<AppendAnswer, ApiError>(refused),
            None => match answer {
                Ok(AppendAnswer::Replay) => existing is Some,
                Ok(AppendAnswer::Store(event)) => existing is None && !unstorable_event(*request)
                    && stores_event(event, key@, job_id, *request),
                Err(refused) => existing is None && request.kind == JobStreamEventKind::Data
                    && refused == ApiError::internal(),
            },
        },
{
    check_stream_requested(state.stream, state.max_attempts)?;
    if let Some(existing) = existing {
        validate_stream_event_replay(key, job_id, request, existing)?;
        return Ok(AppendAnswer::Replay);
    }
    let parsed = match &request.event_data {
        Some(data) => parse_json(data.as_str()),
        None => None,
    };
    let planned = plan_append(
        state.totals,
        bounds,
        request,
        state.endpoint,
        requested_choices(&state.request),
        state.authorized_model.as_str(),
        &parsed,
    );
    wipe(parsed);
    let plaintext_bytes = planned?;
    match (request.kind, &request.event_data) {
        (JobStreamEventKind::Data, Some(data)) => {
            match standard_data::encrypt_for_storage(
                key,
                job_id,
                StorageDirection::StreamEvent {
                    attempt_number: request.attempt,
                    sequence_number: request.sequence,
                },
                data.as_str().as_bytes(),
            ) {
                Ok(stored) => Ok(
                    AppendAnswer::Store(
                        NewEvent {
                            event_kind: request.kind.db_name(),
                            stored_event: Some(stored),
                            storage_version: Some(STORAGE_VERSION),
                            plaintext_bytes,
                        },
                    ),
                ),
                Err(_) => Err(ApiError::internal()),
            }
        },
        (JobStreamEventKind::Data, None) => Err(ApiError::internal()),
        (JobStreamEventKind::UpstreamDone, _) => Ok(
            AppendAnswer::Store(
                NewEvent {
                    event_kind: request.kind.db_name(),
                    stored_event: None,
                    storage_version: None,
                    plaintext_bytes,
                },
            ),
        ),
    }
}

/// An event that was stored is accepted again, as the one that was taken before.
pub proof fn stored_events_can_be_repeated(
    key: Seq<u8>,
    job_id: Uuid,
    request: JobStreamEventRequest,
    event: NewEvent,
    existing: ExistingEvent,
)
    requires
        stores_event(event, key, job_id, request),
        existing.attempt == request.attempt,
        existing.sequence == request.sequence,
        existing.idempotency_key@ == request.idempotency_key@,
        existing.event_kind@ == event.event_kind@,
        existing.ciphertext == event.stored_event,
        existing.storage_version == event.storage_version,
        existing.plaintext_bytes == event.plaintext_bytes,
    ensures
        replay_refusal(key, job_id, request, existing) is None,
{
}

/// An event was let into a stream, and is what a reader opens under its number.
pub open spec fn was_appended(
    event: JobStreamEvent,
    request: JobStreamEventRequest,
    totals: StreamTotals,
    bounds: StreamBounds,
    endpoint: Endpoint,
    requested_choices: Option<u64>,
    model: Seq<char>,
) -> bool {
    &&& request.kind == JobStreamEventKind::Data
    &&& append_plan(
        totals,
        bounds,
        request,
        stream_data_refusal(endpoint, requested_choices, model, event_value(request)),
    ) is Ok
    &&& event.sequence == request.sequence
    &&& event.event_data@ == request.event_data->0@
}

/// A reader is never refused what a node could append: of events that were let into a
/// stream, every one is accepted, and the reader goes on behind the last of them.
pub proof fn readers_accept_what_was_appended(
    from_sequence: i32,
    events: Seq<JobStreamEvent>,
    requests: Seq<JobStreamEventRequest>,
    totals: Seq<StreamTotals>,
    bounds: StreamBounds,
    endpoint: Endpoint,
    requested_choices: Option<u64>,
    model: Seq<char>,
)
    requires
        events.len() == requests.len(),
        events.len() == totals.len(),
        forall|i: int|
            0 <= i < events.len() ==> was_appended(
                #[trigger] events[i],
                requests[i],
                totals[i],
                bounds,
                endpoint,
                requested_choices,
                model,
            ),
    ensures
        read_position(
            endpoint,
            requested_choices,
            model,
            from_sequence,
            parsed_events(events),
            true,
        ) == Ok::<i32, ApiError>(
            if events.len() == 0 {
                from_sequence
            } else {
                (events.last().sequence + 1) as i32
            },
        ),
    decreases events.len(),
{
    if events.len() > 0 {
        let rest = events.drop_first();
        assert(was_appended(
            events[0],
            requests[0],
            totals[0],
            bounds,
            endpoint,
            requested_choices,
            model,
        ));
        assert(parsed_events(events).drop_first() =~= parsed_events(rest));
        assert forall|i: int| 0 <= i < rest.len() implies was_appended(
            #[trigger] rest[i],
            requests.drop_first()[i],
            totals.drop_first()[i],
            bounds,
            endpoint,
            requested_choices,
            model,
        ) by {
            assert(rest[i] == events[i + 1]);
        }
        readers_accept_what_was_appended(
            (events[0].sequence + 1) as i32,
            rest,
            requests.drop_first(),
            totals.drop_first(),
            bounds,
            endpoint,
            requested_choices,
            model,
        );
        if rest.len() > 0 {
            assert(rest.last() == events.last());
        }
    }
}

/// The names under which the two kinds of event are stored.
pub proof fn event_kinds_have_their_names()
    ensures
        JobStreamEventKind::Data.name() == "data"@,
        JobStreamEventKind::UpstreamDone.name() == "upstream_done"@,
{
}

/// A choice is accepted exactly if it is an object with a number below the number of choices
/// that were asked for, tells how it ended in a text or not at all, and holds what its
/// endpoint answers with: a chat an object of texts, a completion a text.
pub proof fn choices_are_what_the_endpoint_answers_with(
    endpoint: Endpoint,
    choices: int,
    choice: Json,
)
    ensures
        choice_refusal(endpoint, choices, choice) is None <==> {
            &&& choice is Object
            &&& choice.member("index"@) matches Some(Json::Number { unsigned: Some(index), .. })
                && index < choices
            &&& choice.member("finish_reason"@) matches Some(reason) ==> reason is Null
                || reason is Text
            &&& endpoint != Endpoint::Other
            &&& endpoint == Endpoint::Completions ==> (choice.member("text"@) matches Some(said)
                && said is Text)
            &&& endpoint == Endpoint::ChatCompletions ==> (choice.member("delta"@) matches Some(
                delta,
            ) && delta is Object && (delta.member("content"@) matches Some(said) ==> said is Null
                || said is Text) && (delta.member("reasoning_content"@) matches Some(thought)
                ==> thought is Null || thought is Text) && (delta.member("role"@) matches Some(role)
                ==> role is Null || role is Text))
        },
{
}

/// A list of choices is accepted exactly if each of them is.
pub proof fn choices_are_accepted_one_by_one(
    endpoint: Endpoint,
    authorized: int,
    choices: Seq<Json>,
)
    ensures
        choices_refusal(endpoint, authorized, choices) is None <==> forall|i: int|
            0 <= i < choices.len() ==> choice_refusal(endpoint, authorized, #[trigger] choices[i])
                is None,
    decreases choices.len(),
{
    if choices.len() > 0 {
        let rest = choices.drop_first();
        choices_are_accepted_one_by_one(endpoint, authorized, rest);
        if choice_refusal(endpoint, authorized, choices[0]) is None {
            if choices_refusal(endpoint, authorized, rest) is None {
                assert forall|i: int| 0 <= i < choices.len() implies choice_refusal(
                    endpoint,
                    authorized,
                    #[trigger] choices[i],
                ) is None by {
                    if i > 0 {
                        assert(rest[i - 1] == choices[i]);
                    }
                }
            } else {
                let i = choose|i: int|
                    0 <= i < rest.len() && choice_refusal(endpoint, authorized, #[trigger] rest[i])
                        is Some;
                assert(choices[i + 1] == rest[i]);
            }
        }
    }
}

/// Usage need not be told, and where it is told it adds up.
pub proof fn told_usage_adds_up(usage: Option<Json>)
    ensures
        usage_refusal(usage) is None <==> (usage matches Some(told) ==> told is Object && (
        told.member("prompt_tokens"@) matches Some(Json::Number { unsigned: Some(prompt), .. }) && (
        told.member("completion_tokens"@) matches Some(
            Json::Number { unsigned: Some(completion), .. },
        ) && (told.member("total_tokens"@) matches Some(Json::Number { unsigned: Some(total), .. })
            && prompt + completion == total)))),
{
}

/// An event is accepted exactly if it is an object that is marked as a part of the answer of
/// its endpoint, by the authorised model, with an identifier of 1 to 256 bytes and the time it
/// was made, with no more choices than were asked for (one, if nothing was), each of them
/// acceptable, and with a usage that adds up.
pub proof fn events_come_from_the_authorised_model(
    endpoint: Endpoint,
    requested_choices: Option<u64>,
    model: Seq<char>,
    data: Option<Json>,
)
    ensures
        stream_data_refusal(endpoint, requested_choices, model, data) is None <==> {
            let asked: int = match requested_choices {
                Some(asked) => asked as int,
                None => 1,
            };
            &&& endpoint != Endpoint::Other
            &&& asked <= usize::MAX
            &&& data matches Some(data) && {
                &&& data is Object
                &&& data.member("object"@) matches Some(Json::Text(object)) && object@ == (
                if endpoint == Endpoint::ChatCompletions {
                    "chat.completion.chunk"@
                } else {
                    "text_completion"@
                })
                &&& data.member("model"@) matches Some(Json::Text(named)) && named@ == model
                &&& data.member("id"@) matches Some(Json::Text(id)) && id@.len() > 0
                    && text::byte_length(id@) <= 256
                &&& data.member("created"@) matches Some(Json::Number { signed: Some(_), .. })
                &&& data.member("choices"@) matches Some(Json::Array(choices)) && choices@.len()
                    <= asked && forall|i: int|
                    0 <= i < choices@.len() ==> choice_refusal(
                        endpoint,
                        asked,
                        #[trigger] choices@[i],
                    ) is None
                &&& usage_refusal(data.member("usage"@)) is None
            }
        },
{
    let asked: int = match requested_choices {
        Some(asked) => asked as int,
        None => 1,
    };
    if let Some(data) = data {
        if let Some(Json::Array(choices)) = data.member("choices"@) {
            choices_are_accepted_one_by_one(endpoint, asked, choices@);
        }
    }
}

/// A request asks for as many choices as its member `n` says, if that is a number.
pub proof fn choices_are_asked_for_by_number(request: Json)
    ensures
        choices_asked_for(request) == match request.member("n"@) {
            Some(Json::Number { unsigned, .. }) => unsigned,
            _ => None,
        },
{
}

/// Events are taken exactly from the device that holds a live lease of this attempt on a
/// Standard job.
pub proof fn only_the_lease_appends(
    row: StreamJobRow,
    worker_user_id: Uuid,
    request: JobStreamEventRequest,
    now: i128,
)
    ensures
        append_refusal(row, worker_user_id, request, now) is None <==> {
            &&& row.node_user_id == worker_user_id
            &&& row.leased_to_node_id == Some(request.node_id)
            &&& row.claim_device_bound
            &&& row.status@ == "leased"@
            &&& row.lease_expires_at matches Some(expiry) && now < expiry
            &&& row.attempt_count == request.attempt
            &&& row.confidentiality@ == "standard"@
        },
        row.node_user_id != worker_user_id || !row.claim_device_bound ==> append_refusal(
            row,
            worker_user_id,
            request,
            now,
        ) is Some && append_refusal(row, worker_user_id, request, now)->0 is Forbidden,
{
}

/// An event is appended exactly if it is the next one of a stream that is neither full nor
/// closed, and if it is data that is accepted and still fits, or closes a stream that holds
/// some. What it takes up is its bytes.
pub proof fn events_are_appended_in_order(
    totals: StreamTotals,
    bounds: StreamBounds,
    request: JobStreamEventRequest,
    data_refusal: Option<ApiError>,
)
    requires
        totals.total_bytes >= 0,
    ensures
        append_plan(totals, bounds, request, data_refusal) is Ok <==> {
            &&& request.sequence == totals.event_count
            &&& totals.event_count < bounds.max_events
            &&& !totals.upstream_done
            &&& request.kind == JobStreamEventKind::UpstreamDone ==> totals.event_count != 0
            &&& request.kind == JobStreamEventKind::Data ==> data_refusal is None && (
            request.event_data matches Some(data) && text::byte_length(data@) <= i32::MAX
                && totals.total_bytes + text::byte_length(data@) <= bounds.max_total_bytes)
        },
        append_plan(totals, bounds, request, data_refusal) matches Ok(size) ==> {
            &&& request.kind == JobStreamEventKind::Data ==> size == text::byte_length(
                request.event_data->0@,
            )
            &&& request.kind == JobStreamEventKind::UpstreamDone ==> size == 0
        },
{
}

/// A reader gets on exactly if all that was read could be opened and every event is acceptable;
/// it then stands behind the last event.
pub proof fn readers_stop_at_the_first_bad_event(
    endpoint: Endpoint,
    requested_choices: Option<u64>,
    model: Seq<char>,
    next: i32,
    events: Seq<ParsedEvent>,
    complete: bool,
)
    ensures
        read_position(endpoint, requested_choices, model, next, events, complete) is Ok
            <==> complete && forall|i: int|
            0 <= i < events.len() ==> (#[trigger] events[i]).sequence < i32::MAX
                && stream_data_refusal(endpoint, requested_choices, model, events[i].data) is None,
        read_position(endpoint, requested_choices, model, next, events, complete) matches Ok(end)
            ==> end == if events.len() == 0 {
            next as int
        } else {
            events.last().sequence + 1
        },
    decreases events.len(),
{
    if events.len() > 0 {
        let rest = events.drop_first();
        let after = (events[0].sequence + 1) as i32;
        readers_stop_at_the_first_bad_event(
            endpoint,
            requested_choices,
            model,
            after,
            rest,
            complete,
        );
        assert forall|i: int| 0 <= i < rest.len() implies #[trigger] rest[i] == events[i + 1] by {}
        let whole = read_position(endpoint, requested_choices, model, next, events, complete);
        if whole is Ok {
            assert forall|i: int| 0 <= i < events.len() implies (#[trigger] events[i]).sequence
                < i32::MAX && stream_data_refusal(
                endpoint,
                requested_choices,
                model,
                events[i].data,
            ) is None by {
                if i > 0 {
                    assert(rest[i - 1] == events[i]);
                }
            }
        } else if complete && events[0].sequence < i32::MAX && stream_data_refusal(
            endpoint,
            requested_choices,
            model,
            events[0].data,
        ) is None {
            let i = choose|i: int|
                0 <= i < rest.len() && !((#[trigger] rest[i]).sequence < i32::MAX
                    && stream_data_refusal(endpoint, requested_choices, model, rest[i].data)
                    is None);
            assert(events[i + 1] == rest[i]);
        }
    }
}

/// An event is read as a text exactly if its envelope is of the present version, belongs to
/// its own place in the stream, and holds that text in as many bytes as were noted.
pub proof fn stored_events_hold_their_place(
    key: Seq<u8>,
    job_id: Uuid,
    attempt: i32,
    event: StoredEvent,
    plain: Seq<char>,
)
    ensures
        stored_event_text(key, job_id, attempt, event) == Some(plain) <==> {
            &&& event.storage_version == Some(1i16)
            &&& event.plaintext_bytes == text::byte_length(plain)
            &&& event.ciphertext matches Some(ciphertext) && standard_data::stored_value(
                key,
                job_id,
                StorageDirection::StreamEvent {
                    attempt_number: attempt,
                    sequence_number: event.sequence,
                },
                ciphertext@,
            ) == Some(vstd::utf8::encode_utf8(plain))
        },
{
    if let Some(ciphertext) = event.ciphertext {
        let opened = standard_data::stored_value(
            key,
            job_id,
            StorageDirection::StreamEvent {
                attempt_number: attempt,
                sequence_number: event.sequence,
            },
            ciphertext@,
        );
        if let Some(bytes) = opened {
            text::texts_are_decoded_from_their_bytes(bytes, plain);
        }
    }
}

/// Only the very same event is a repetition: of the same attempt, at the same place, under the
/// same key and of the same kind; a closing event has no content to differ in.
pub proof fn repetitions_are_the_same_event(
    key: Seq<u8>,
    job_id: Uuid,
    request: JobStreamEventRequest,
    existing: ExistingEvent,
)
    ensures
        replay_refusal(key, job_id, request, existing) is None ==> {
            &&& existing.attempt == request.attempt
            &&& existing.sequence == request.sequence
            &&& existing.idempotency_key@ == request.idempotency_key@
            &&& request.kind == JobStreamEventKind::Data ==> existing.event_kind@ == "data"@ && (
            request.event_data matches Some(supplied) && existing.plaintext_bytes
                == text::byte_length(supplied@) && (existing.ciphertext matches Some(ciphertext)
                && standard_data::stored_value(
                key,
                job_id,
                StorageDirection::StreamEvent {
                    attempt_number: request.attempt,
                    sequence_number: request.sequence,
                },
                ciphertext@,
            ) == Some(vstd::utf8::encode_utf8(supplied@))))
            &&& request.kind == JobStreamEventKind::UpstreamDone ==> existing.event_kind@
                == "upstream_done"@
        },
        request.kind == JobStreamEventKind::UpstreamDone && existing.attempt == request.attempt
            && existing.sequence == request.sequence && existing.idempotency_key@
            == request.idempotency_key@ && existing.event_kind@ == "upstream_done"@
            && existing.ciphertext is None && existing.storage_version is None
            && existing.plaintext_bytes == 0 ==> replay_refusal(key, job_id, request, existing)
            is None,
{
}

/// Only a job that asked for a stream, and is tried once, takes events; what comes first is
/// appended by the rules of the stream, and what is there already must be the same.
pub proof fn only_streams_take_events(
    key: Seq<u8>,
    job_id: Uuid,
    request: JobStreamEventRequest,
    state: StreamState,
    bounds: StreamBounds,
    existing: Option<ExistingEvent>,
    parsed: Option<Json>,
)
    ensures
        event_refusal(key, job_id, request, state, bounds, existing, parsed) is None <==> {
            &&& state.stream
            &&& state.max_attempts == 1
            &&& existing matches Some(existing) ==> replay_refusal(key, job_id, request, existing)
                is None
            &&& existing is None ==> append_plan(
                state.totals,
                bounds,
                request,
                stream_data_refusal(
                    state.endpoint,
                    state.request.member_unsigned("n"@),
                    state.authorized_model@,
                    parsed,
                ),
            ) is Ok
        },
{
}

/// What is stored of an event is its kind, by name, and for data the sealed text with the
/// number of its bytes, in the present version of the storage.
pub proof fn appended_events_are_stored_whole(
    event: NewEvent,
    key: Seq<u8>,
    job_id: Uuid,
    request: JobStreamEventRequest,
)
    requires
        stores_event(event, key, job_id, request),
    ensures
        request.kind == JobStreamEventKind::Data ==> {
            &&& event.event_kind@ == "data"@
            &&& event.storage_version == Some(1i16)
            &&& request.event_data matches Some(data) && event.plaintext_bytes
                == text::byte_length(data@) && (event.stored_event matches Some(stored)
                && standard_data::stored_value(
                key,
                job_id,
                StorageDirection::StreamEvent {
                    attempt_number: request.attempt,
                    sequence_number: request.sequence,
                },
                stored@,
            ) == Some(vstd::utf8::encode_utf8(data@)))
        },
        request.kind == JobStreamEventKind::UpstreamDone ==> event.event_kind@
            == "upstream_done"@ && event.stored_event is None && event.plaintext_bytes == 0,
{
}

/// Data that is empty, or longer than 1,300,000 bytes, cannot be stored; a closing event always
/// can.
pub proof fn data_is_stored_by_its_size(request: JobStreamEventRequest)
    ensures
        request.kind == JobStreamEventKind::UpstreamDone ==> !unstorable_event(request),
        request.kind == JobStreamEventKind::Data ==> (request.event_data matches Some(data) ==> (
        unstorable_event(request) <==> text::byte_length(data@) == 0 || text::byte_length(data@)
            > 1_300_000)),
{
}

/// An event is refused for what is wrong with it first: its place, a stream that is closed, its
/// data, or its size.
pub proof fn events_are_refused_for_a_reason(
    totals: StreamTotals,
    bounds: StreamBounds,
    request: JobStreamEventRequest,
    data_refusal: Option<ApiError>,
)
    requires
        totals.total_bytes >= 0,
        request.event_data matches Some(data) ==> text::byte_length(data@) <= i32::MAX,
    ensures
        ({
            let planned = append_plan(totals, bounds, request, data_refusal);
            let next = request.sequence == totals.event_count && totals.event_count
                < bounds.max_events;
            &&& !next ==> (planned matches Err(ApiError::Conflict { code, .. }) && code
                == "stream_sequence_mismatch")
            &&& next && totals.upstream_done ==> (planned matches Err(
                ApiError::Conflict { code, .. },
            ) && code == "stream_already_done")
            &&& next && !totals.upstream_done && request.kind == JobStreamEventKind::Data
                && request.event_data is Some && data_refusal is Some ==> planned == Err::<
                i32,
                ApiError,
            >(data_refusal->0)
            &&& next && !totals.upstream_done && request.kind == JobStreamEventKind::Data
                && data_refusal is None && (request.event_data matches Some(data)
                && totals.total_bytes + text::byte_length(data@) > bounds.max_total_bytes) ==> (
            planned matches Err(ApiError::BadRequest { code, .. }) && code == "stream_too_large")
            &&& next && !totals.upstream_done && request.kind == JobStreamEventKind::UpstreamDone
                && totals.event_count == 0 ==> (planned matches Err(
                ApiError::BadRequest { code, .. },
            ) && code == "invalid_stream_event")
        }),
{
}

/// Events of a lease that is over, or of another attempt, are told from those of Regulated jobs.
pub proof fn appending_is_refused_for_a_reason(
    row: StreamJobRow,
    worker_user_id: Uuid,
    request: JobStreamEventRequest,
    now: i128,
)
    requires
        row.node_user_id == worker_user_id,
        row.leased_to_node_id == Some(request.node_id),
        row.claim_device_bound,
    ensures
        row.status@ != "leased"@ || row.attempt_count != request.attempt || !(
        row.lease_expires_at matches Some(expiry) && now < expiry) ==> (append_refusal(
            row,
            worker_user_id,
            request,
            now,
        ) matches Some(ApiError::Conflict { code, .. }) && code == "stream_lease_invalid"),
        row.status@ == "leased"@ && row.attempt_count == request.attempt && (
        row.lease_expires_at matches Some(expiry) && now < expiry) && row.confidentiality@
            != "standard"@ ==> (append_refusal(row, worker_user_id, request, now) matches Some(
            ApiError::BadRequest { code, .. },
        ) && code == "stream_not_supported"),
{
}

/// Whatever is wrong with the data of an event, it is refused as such.
pub proof fn bad_data_is_refused_as_such(
    endpoint: Endpoint,
    requested_choices: Option<u64>,
    model: Seq<char>,
    data: Option<Json>,
    choices: int,
    choice: Json,
    usage: Option<Json>,
)
    requires
        endpoint != Endpoint::Other,
        requested_choices matches Some(asked) ==> asked <= usize::MAX,
    ensures
        choice_refusal(endpoint, choices, choice) matches Some(refused) ==> (
        refused matches ApiError::BadRequest { code, .. } && code == "invalid_stream_event"),
        usage_refusal(usage) matches Some(refused) ==> (refused matches ApiError::BadRequest {
            code,
            ..
        } && code == "invalid_stream_event"),
        data is None ==> (stream_data_refusal(endpoint, requested_choices, model, data)
            matches Some(ApiError::BadRequest { code, .. }) && code == "invalid_stream_event"),
{
}

} // verus!
