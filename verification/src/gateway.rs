//! The public inference endpoints: a request becomes a job, and the answer is waited for
//! or passed on piece by piece.

use std::collections::VecDeque;

use vstd::prelude::*;

use crate::crypto;
use crate::error::ApiError;
use crate::ids::Uuid;
use crate::jobs;
use crate::jobs::{
    open_stored_text, CreateJobRequest, JobStatus, PayloadEncoding, StandardLimits,
};
use crate::json;
use crate::json::{json_string, push_json_string, Json};
use crate::settlement;
use crate::settlement::release_reservation;
use crate::standard_data;
use crate::standard_data::StorageDirection;
use crate::streams::JobStreamEvent;
use crate::text;

verus! {

pub const STREAM_KEEPALIVE_NANOS: i128 = 15_000_000_000;

/// How many events are read at a time.
pub const STREAM_READ_LIMIT: i64 = 8;

/// How long an answer is waited for, out of how long a request may take: a little less,
/// but at least a second. All in nanoseconds.
pub fn wait_budget(request_timeout: u128) -> (budget: u128)
    ensures
        budget == if request_timeout >= 6_000_000_000 {
            request_timeout - 5_000_000_000
        } else {
            1_000_000_000
        },
{
    if request_timeout >= 6_000_000_000 {
        request_timeout - 5_000_000_000
    } else {
        1_000_000_000
    }
}

/// The key under which the job of a request is created.
pub fn gateway_idempotency_key(request_id: Uuid) -> (key: String)
    ensures
        key@ == "openai-"@ + request_id.hyphenated(),
{
    let mut key = String::new();
    text::push_text(&mut key, "openai-");
    let id = request_id.text();
    text::push_text(&mut key, id.as_str());
    assert(key@ =~= "openai-"@ + request_id.hyphenated());
    key
}

/// The job that a request becomes. `encoded` is the payload as it is sent; the copy of it
/// is overwritten.
pub fn gateway_job(encoded: Vec<u8>, limits: StandardLimits, estimated_input_tokens: i32) -> (request:
    CreateJobRequest)
    requires
        encoded@.len() <= usize::MAX / 4,
    ensures
        request.virtual_model == limits.model,
        request.encrypted_payload@ == crypto::base64_text(encoded@),
        crypto::base64_bytes(request.encrypted_payload@) == Some(encoded@),
        request.payload_encoding == PayloadEncoding::Base64,
        request.estimated_input_tokens == estimated_input_tokens,
        request.max_output_tokens == limits.maximum_output_tokens,
{
    let encrypted_payload = crypto::base64_encode(encoded.as_slice());
    let mut encoded = encoded;
    crypto::wipe_bytes(&mut encoded);
    CreateJobRequest {
        virtual_model: limits.model,
        encrypted_payload,
        payload_encoding: PayloadEncoding::Base64,
        estimated_input_tokens,
        max_output_tokens: limits.maximum_output_tokens,
    }
}

/// What is stored of a job that is waited for.
pub struct AwaitedJob {
    pub status: String,
    pub result_ciphertext: Option<String>,
    pub standard_result_storage_version: Option<i16>,
}

/// What a look at a job comes to.
pub enum WaitStep {
    /// It is not done yet.
    Wait,
    /// It is done, with this JSON text.
    Done { result: String },
}

/// The JSON text that bytes spell, if they spell one.
pub open spec fn json_text(bytes: Seq<u8>) -> Option<Seq<char>> {
    match text::decoded(bytes) {
        Some(spelled) => if json::json_value(spelled) is Some {
            Some(spelled)
        } else {
            None
        },
        None => None,
    }
}

/// Reads bytes that must spell a JSON text.
pub fn read_json_text(bytes: Vec<u8>) -> (spelled: Result<String, ApiError>)
    ensures
        match spelled {
            Ok(spelled) => json_text(bytes@) == Some(spelled@),
            Err(refused) => json_text(bytes@) is None && refused == ApiError::internal(),
        },
{
    match text::from_utf8(bytes) {
        Some(spelled) => match json::parse_json(spelled.as_str()) {
            Some(value) => {
                let mut value = value;
                json::zeroize_json_value(&mut value);
                Ok(spelled)
            },
            None => Err(ApiError::internal()),
        },
        None => Err(ApiError::internal()),
    }
}

/// The JSON text of the result of a job, if it is stored whole.
pub open spec fn stored_result(key: Seq<u8>, job_id: Uuid, job: AwaitedJob) -> Option<Seq<char>> {
    match job.result_ciphertext {
        None => None,
        Some(stored) => match jobs::stored_text(
            key,
            job_id,
            StorageDirection::Result,
            job.standard_result_storage_version,
            stored@,
        ) {
            Some(encoded) => match crypto::base64_bytes(encoded) {
                Some(bytes) => json_text(bytes),
                None => None,
            },
            None => None,
        },
    }
}

/// What is told of a job that failed: what its last attempt reported, if anything.
pub open spec fn failure_message(reported: Option<String>) -> Seq<char> {
    match reported {
        Some(message) => message@,
        None => "远程推理任务失败"@,
    }
}

/// Looks at a job that is waited for. `reported` is what the last attempt at a failed job
/// reported.
pub fn wait_step(
    key: &[u8; 32],
    job_id: Uuid,
    job: &AwaitedJob,
    reported: Option<String>,
) -> (step: Result<WaitStep, ApiError>)
    ensures
        if job.status@ == "succeeded"@ {
            match step {
                Ok(WaitStep::Done { result }) => stored_result(key@, job_id, *job) == Some(
                    result@,
                ),
                Ok(WaitStep::Wait) => false,
                Err(refused) => stored_result(key@, job_id, *job) is None && refused
                    == ApiError::internal(),
            }
        } else if job.status@ == "failed"@ || job.status@ == "cancelled"@ {
            step matches Err(ApiError::Reported { code, detail }) && code@ == "inference_failed"@
                && detail@ == failure_message(reported)
        } else if job.status@ == "queued"@ || job.status@ == "retry"@ || job.status@ == "leased"@ {
            step matches Ok(WaitStep::Wait)
        } else {
            step matches Err(refused) && refused == ApiError::internal()
        },
{
    let status = job.status.as_str();
    if text::same_text(status, "succeeded") {
        let stored = match &job.result_ciphertext {
            Some(stored) => stored,
            None => {
                return Err(ApiError::internal());
            },
        };
        let encoded = open_stored_text(
            key,
            job_id,
            StorageDirection::Result,
            job.standard_result_storage_version,
            stored.as_str(),
        )?;
        return match crypto::base64_decode(encoded.as_str()) {
            Some(bytes) => {
                let result = read_json_text(bytes)?;
                Ok(WaitStep::Done { result })
            },
            None => Err(ApiError::internal()),
        };
    }
    if text::same_text(status, "failed") || text::same_text(status, "cancelled") {
        let detail = match reported {
            Some(message) => message,
            None => String::from_str("远程推理任务失败"),
        };
        return Err(ApiError::Reported { code: "inference_failed", detail });
    }
    if text::same_text(status, "queued") || text::same_text(status, "retry") || text::same_text(
        status,
        "leased",
    ) {
        return Ok(WaitStep::Wait);
    }
    Err(ApiError::internal())
}

/// What giving up on a job comes to.
#[derive(Clone, Copy, Debug, PartialEq, Eq, Structural)]
pub enum CancelStep {
    /// It ended in the meantime.
    Nothing,
    /// It is cancelled; the account then has this much reserved. The attempt that is
    /// under way fails with it, where there is one.
    Cancel { reserved_micro: i64, fail_attempt: bool },
}

pub open spec fn has_ended(status: Seq<char>) -> bool {
    status == "succeeded"@ || status == "failed"@ || status == "cancelled"@
}

pub open spec fn cancellation(status: Seq<char>, reserved: int, reservation: int) -> Result<
    CancelStep,
    ApiError,
> {
    if has_ended(status) {
        Ok(CancelStep::Nothing)
    } else {
        match settlement::released_reservation(reserved, reservation) {
            Ok(left) => Ok(
                CancelStep::Cancel { reserved_micro: left, fail_attempt: status == "leased"@ },
            ),
            Err(refused) => Err(refused),
        }
    }
}

/// Gives up on a job that took too long. Its reservation goes back to the account.
pub fn cancel_timed_out_job(status: &str, reserved_micro: i64, reservation_micro: i64) -> (step: Result<
    CancelStep,
    ApiError,
>)
    ensures
        step == cancellation(status@, reserved_micro as int, reservation_micro as int),
{
    if text::same_text(status, "succeeded") || text::same_text(status, "failed")
        || text::same_text(status, "cancelled") {
        return Ok(CancelStep::Nothing);
    }
    let left: i64 = release_reservation(reserved_micro, reservation_micro)?;
    Ok(CancelStep::Cancel { reserved_micro: left, fail_attempt: text::same_text(status, "leased") })
}

/// A job that ended is not cancelled any more, and a job that is cancelled keeps nothing
/// of its reservation.
pub proof fn cancelling_releases_everything(status: Seq<char>, reserved: i64, reservation: i64)
    requires
        0 <= reservation <= reserved,
    ensures
        has_ended(status) <==> cancellation(status, reserved as int, reservation as int) == Ok::<
            CancelStep,
            ApiError,
        >(CancelStep::Nothing),
        !has_ended(status) ==> (cancellation(
            status,
            reserved as int,
            reservation as int,
        ) matches Ok(CancelStep::Cancel { reserved_micro, .. }) && reserved_micro + reservation
            == reserved),
{
}

/// The error object of the public endpoints: these members and no others, in the order of
/// their names.
pub open spec fn is_error_object(value: Json, message: Seq<char>, error_type: Seq<char>) -> bool {
    &&& value matches Json::Object(outer)
    &&& outer@.len() == 1
    &&& outer@[0].0@ == "error"@
    &&& outer@[0].1 matches Json::Object(inner)
    &&& inner@.len() == 4
    &&& inner@[0].0@ == "code"@ && inner@[0].1.text() == Some(error_type)
    &&& inner@[1].0@ == "message"@ && inner@[1].1.text() == Some(message)
    &&& inner@[2].0@ == "param"@ && inner@[2].1 == Json::Null
    &&& inner@[3].0@ == "type"@ && inner@[3].1.text() == Some(error_type)
}

/// Makes the error object of the public endpoints.
pub fn gateway_error_json(message: &str, error_type: &str) -> (value: Json)
    ensures
        is_error_object(value, message@, error_type@),
{
    let members = vec![
        (String::from_str("code"), Json::Text(String::from_str(error_type))),
        (String::from_str("message"), Json::Text(String::from_str(message))),
        (String::from_str("param"), Json::Null),
        (String::from_str("type"), Json::Text(String::from_str(error_type))),
    ];
    Json::Object(vec![(String::from_str("error"), Json::Object(members))])
}

/// How a stream ends.
pub enum GatewayStreamTerminal {
    Done,
    Error { message: String },
}

/// A stream that is passed on. Times are nanoseconds of a clock that never goes back.
pub struct GatewayStreamState {
    pub next_sequence: i32,
    pub pending: VecDeque<JobStreamEvent>,
    pub terminal: Option<GatewayStreamTerminal>,
    pub finished: bool,
    pub deadline: i128,
    pub last_output: i128,
}

/// What is to be done next for a stream.
pub enum GatewayAction {
    /// The stream is over.
    Finish,
    /// This is sent.
    Emit { frame: String },
    /// The job took too long: it is cancelled.
    Cancel,
    /// More events are read, from the next sequence number on.
    Read,
    /// There is nothing to do for a while.
    Sleep,
}

/// The frame of an event.
pub open spec fn event_frame(event: JobStreamEvent) -> Seq<char> {
    "id: "@ + text::decimal(event.sequence as int) + "\ndata: "@ + event.event_data@ + "\n\n"@
}

pub const DONE_FRAME: &'static str = "data: [DONE]\n\n";

pub const KEEPALIVE_FRAME: &'static str = ": keep-alive\n\n";

/// The JSON text of a stream error.
pub open spec fn error_text(message: Seq<char>) -> Seq<char> {
    "{\"error\":{\"code\":\"stream_error\",\"message\":"@ + json_string(message)
        + ",\"param\":null,\"type\":\"stream_error\"}}"@
}

/// The last frame of a stream that ends with an error.
pub open spec fn error_frame(message: Seq<char>) -> Seq<char> {
    "data: "@ + error_text(message) + "\n\n"@ + DONE_FRAME@
}

/// The last frame of a stream.
pub open spec fn terminal_frame(terminal: GatewayStreamTerminal) -> Seq<char> {
    match terminal {
        GatewayStreamTerminal::Done => DONE_FRAME@,
        GatewayStreamTerminal::Error { message } => error_frame(message@),
    }
}

fn last_frame(terminal: GatewayStreamTerminal) -> (frame: String)
    ensures
        frame@ == terminal_frame(terminal),
{
    match terminal {
        GatewayStreamTerminal::Done => String::from_str(DONE_FRAME),
        GatewayStreamTerminal::Error { message } => {
            let mut encoded = String::new();
            text::push_text(
                &mut encoded,
                "{\"error\":{\"code\":\"stream_error\",\"message\":",
            );
            push_json_string(&mut encoded, message.as_str());
            text::push_text(&mut encoded, ",\"param\":null,\"type\":\"stream_error\"}}");
            assert(encoded@ =~= error_text(message@));
            let mut message = message;
            crypto::wipe_text(&mut message);
            let mut frame = String::new();
            text::push_text(&mut frame, "data: ");
            text::push_text(&mut frame, encoded.as_str());
            text::push_text(&mut frame, "\n\n");
            text::push_text(&mut frame, DONE_FRAME);
            assert(frame@ =~= terminal_frame(terminal));
            frame
        },
    }
}

fn frame_of(event: JobStreamEvent) -> (frame: String)
    ensures
        frame@ == event_frame(event),
{
    let mut frame = String::new();
    text::push_text(&mut frame, "id: ");
    text::push_decimal(&mut frame, event.sequence as i64);
    text::push_text(&mut frame, "\ndata: ");
    text::push_text(&mut frame, event.event_data.as_str());
    text::push_text(&mut frame, "\n\n");
    assert(frame@ =~= event_frame(event));
    let mut event = event;
    crypto::wipe_text(&mut event.event_data);
    frame
}

/// What was read of a stream.
pub struct StreamRead {
    pub status: JobStatus,
    pub events: Vec<JobStreamEvent>,
    pub next_sequence: i32,
    pub has_more: bool,
    pub upstream_done: bool,
    pub error_message: Option<String>,
}

/// How a stream ends after what was read, if it does.
pub open spec fn ends_with(read: StreamRead, before: Option<Seq<char>>) -> Option<Seq<char>> {
    match read.status {
        JobStatus::Succeeded => if !read.has_more && read.upstream_done {
            Some(DONE_FRAME@)
        } else {
            before
        },
        JobStatus::Failed | JobStatus::Cancelled => Some(
            error_frame(
                match read.error_message {
                    Some(message) => message@,
                    None => "远程推理任务未成功完成"@,
                },
            ),
        ),
        JobStatus::Retry => Some(
            error_frame("流式任务违反单 attempt 合同，已拒绝拼接重试输出"@),
        ),
        JobStatus::Queued | JobStatus::Leased => before,
    }
}

impl GatewayStreamState {
    /// The last frame, once it is known how the stream ends.
    pub open spec fn ending(self) -> Option<Seq<char>> {
        match self.terminal {
            Some(terminal) => Some(terminal_frame(terminal)),
            None => None,
        }
    }

    /// Starts to pass a stream on.
    pub fn new(now: i128, budget: i128) -> (state: GatewayStreamState)
        requires
            i128::MIN <= now + budget <= i128::MAX,
        ensures
            state.next_sequence == 0,
            state.pending@.len() == 0,
            state.terminal is None,
            !state.finished,
            state.deadline == now + budget,
            state.last_output == now,
    {
        GatewayStreamState {
            next_sequence: 0,
            pending: VecDeque::new(),
            terminal: None,
            finished: false,
            deadline: now + budget,
            last_output: now,
        }
    }

    /// Decides what is to be done next: what is pending is sent first, in order; after it
    /// the end, where it is known; and only then is anything read, unless the time is up.
    pub fn next_gateway_stream_chunk(&mut self, now: i128) -> (action: GatewayAction)
        ensures
            if old(self).finished {
                action is Finish && *final(self) == *old(self)
            } else if old(self).pending@.len() > 0 {
                &&& action matches GatewayAction::Emit { frame } && frame@ == event_frame(
                    old(self).pending@[0],
                )
                &&& final(self).pending@ == old(self).pending@.drop_first()
                &&& final(self).last_output == now
                &&& final(self).ending() == old(self).ending()
                &&& !final(self).finished
                &&& final(self).next_sequence == old(self).next_sequence
                &&& final(self).deadline == old(self).deadline
            } else if old(self).terminal is Some {
                &&& action matches GatewayAction::Emit { frame } && Some(frame@) == old(
                    self,
                ).ending()
                &&& final(self).finished
                &&& final(self).terminal is None
                &&& final(self).pending@ == old(self).pending@
                &&& final(self).next_sequence == old(self).next_sequence
                &&& final(self).deadline == old(self).deadline
                &&& final(self).last_output == old(self).last_output
            } else {
                &&& if now >= old(self).deadline {
                    action is Cancel
                } else {
                    action is Read
                }
                &&& *final(self) == *old(self)
            },
    {
        if self.finished {
            return GatewayAction::Finish;
        }
        if self.pending.len() > 0 {
            if let Some(event) = self.pending.pop_front() {
                assert(self.pending@ =~= old(self).pending@.drop_first());
                self.last_output = now;
                return GatewayAction::Emit { frame: frame_of(event) };
            }
        }
        if self.terminal.is_some() {
            let mut terminal: Option<GatewayStreamTerminal> = None;
            std::mem::swap(&mut terminal, &mut self.terminal);
            self.finished = true;
            if let Some(terminal) = terminal {
                return GatewayAction::Emit { frame: last_frame(terminal) };
            }
        }
        if now >= self.deadline {
            return GatewayAction::Cancel;
        }
        GatewayAction::Read
    }

    /// Takes note that the job was cancelled, or that this was not confirmed.
    pub fn cancelled(&mut self, confirmed: bool)
        ensures
            final(self).ending() == Some(
                error_frame(
                    if confirmed {
                        "推理在网关等待上限内未完成，任务已取消且预留额度已释放"@
                    } else {
                        "推理在网关等待上限内未完成，且任务取消未得到确认"@
                    },
                ),
            ),
            final(self).pending@ == old(self).pending@,
            final(self).finished == old(self).finished,
            final(self).next_sequence == old(self).next_sequence,
            final(self).deadline == old(self).deadline,
            final(self).last_output == old(self).last_output,
    {
        self.terminal = Some(
            GatewayStreamTerminal::Error {
                message: String::from_str(
                    if confirmed {
                        "推理在网关等待上限内未完成，任务已取消且预留额度已释放"
                    } else {
                        "推理在网关等待上限内未完成，且任务取消未得到确认"
                    },
                ),
            },
        );
    }

    /// Takes note that reading failed.
    pub fn read_failed(&mut self, message: String)
        ensures
            final(self).ending() == Some(error_frame(message@)),
            final(self).pending@ == old(self).pending@,
            final(self).finished == old(self).finished,
            final(self).next_sequence == old(self).next_sequence,
            final(self).deadline == old(self).deadline,
            final(self).last_output == old(self).last_output,
    {
        self.terminal = Some(GatewayStreamTerminal::Error { message });
    }

    /// Takes in what was read.
    pub fn absorb(&mut self, read: StreamRead)
        ensures
            final(self).pending@ == old(self).pending@ + read.events@,
            final(self).next_sequence == read.next_sequence,
            final(self).ending() == ends_with(read, old(self).ending()),
            final(self).finished == old(self).finished,
            final(self).deadline == old(self).deadline,
            final(self).last_output == old(self).last_output,
    {
        self.next_sequence = read.next_sequence;
        let mut events = read.events;
        let mut queue: VecDeque<JobStreamEvent> = VecDeque::new();
        let ghost all = events@;
        while events.len() > 0
            invariant
                events@ + queue@ == all,
            decreases events.len(),
        {
            if let Some(event) = events.pop() {
                queue.push_front(event);
                assert(events@ + queue@ =~= all);
            }
        }
        assert(queue@ =~= all);
        self.pending.append(&mut queue);
        match read.status {
            JobStatus::Succeeded => {
                if !read.has_more && read.upstream_done {
                    self.terminal = Some(GatewayStreamTerminal::Done);
                }
            },
            JobStatus::Failed | JobStatus::Cancelled => {
                let message = match read.error_message {
                    Some(message) => message,
                    None => String::from_str("远程推理任务未成功完成"),
                };
                self.terminal = Some(GatewayStreamTerminal::Error { message });
            },
            JobStatus::Retry => {
                self.terminal = Some(
                    GatewayStreamTerminal::Error {
                        message: String::from_str("流式任务违反单 attempt 合同，已拒绝拼接重试输出"),
                    },
                );
            },
            JobStatus::Queued | JobStatus::Leased => {},
        }
    }

    /// Decides what is done after reading brought nothing: now and then a sign of life is
    /// sent. `None` where there is something to send after all.
    pub fn idle(&mut self, now: i128) -> (action: Option<GatewayAction>)
        requires
            i128::MIN <= now - old(self).last_output <= i128::MAX,
        ensures
            if old(self).pending@.len() > 0 || old(self).terminal is Some {
                action is None && *final(self) == *old(self)
            } else if now - old(self).last_output >= STREAM_KEEPALIVE_NANOS {
                &&& action matches Some(GatewayAction::Emit { frame }) && frame@
                    == KEEPALIVE_FRAME@
                &&& *final(self) == (GatewayStreamState { last_output: now, ..*old(self) })
            } else {
                action matches Some(GatewayAction::Sleep) && *final(self) == *old(self)
            },
            old(self).pending@.len() == 0 && old(self).terminal is None && now - old(
                self,
            ).last_output >= 15_000_000_000 ==> (action matches Some(GatewayAction::Emit { frame })
                && frame@ == ": keep-alive\n\n"@),
            old(self).pending@.len() == 0 && old(self).terminal is None && now - old(
                self,
            ).last_output < 15_000_000_000 ==> action matches Some(GatewayAction::Sleep),
    {
        if self.pending.len() > 0 || self.terminal.is_some() {
            return None;
        }
        if now - self.last_output >= STREAM_KEEPALIVE_NANOS {
            self.last_output = now;
            return Some(GatewayAction::Emit { frame: String::from_str(KEEPALIVE_FRAME) });
        }
        Some(GatewayAction::Sleep)
    }
}

/// A stream is never put together out of two attempts, and a job that did not succeed is
/// never said to be done without an error: reading a retried, failed or cancelled job ends
/// the stream with an error.
pub proof fn unfinished_jobs_end_in_errors(read: StreamRead, before: Option<Seq<char>>)
    requires
        read.status is Retry || read.status is Failed || read.status is Cancelled,
    ensures
        exists|message: Seq<char>|
            ends_with(read, before) == Some(#[trigger] error_frame(message)),
{
    let message = if read.status is Retry {
        "流式任务违反单 attempt 合同，已拒绝拼接重试输出"@
    } else {
        match read.error_message {
            Some(message) => message@,
            None => "远程推理任务未成功完成"@,
        }
    };
    assert(ends_with(read, before) == Some(error_frame(message)));
}

/// A job has ended exactly if it succeeded, failed or was cancelled; the attempt that is under
/// way fails with a job that is cancelled.
pub proof fn running_jobs_are_cancelled(status: Seq<char>, reserved: i64, reservation: i64)
    requires
        0 <= reservation <= reserved,
    ensures
        status == "succeeded"@ || status == "failed"@ || status == "cancelled"@ ==> cancellation(
            status,
            reserved as int,
            reservation as int,
        ) == Ok::<CancelStep, ApiError>(CancelStep::Nothing),
        status == "queued"@ || status == "retry"@ ==> cancellation(
            status,
            reserved as int,
            reservation as int,
        ) == Ok::<CancelStep, ApiError>(
            CancelStep::Cancel {
                reserved_micro: (reserved - reservation) as i64,
                fail_attempt: false,
            },
        ),
        status == "leased"@ ==> cancellation(status, reserved as int, reservation as int) == Ok::<
            CancelStep,
            ApiError,
        >(
            CancelStep::Cancel {
                reserved_micro: (reserved - reservation) as i64,
                fail_attempt: true,
            },
        ),
{
    reveal_strlit("succeeded");
    reveal_strlit("failed");
    reveal_strlit("cancelled");
    reveal_strlit("queued");
    reveal_strlit("retry");
    reveal_strlit("leased");
    assert("succeeded"@[0] == 's' && "failed"@[0] == 'f' && "cancelled"@[0] == 'c');
    assert("queued"@[0] == 'q' && "retry"@[0] == 'r' && "leased"@[0] == 'l');
}

/// A result is the JSON text that the node sealed: stored in the present version, in base64.
pub proof fn results_are_what_the_node_sealed(
    key: Seq<u8>,
    job_id: Uuid,
    job: AwaitedJob,
    result: Seq<char>,
)
    ensures
        stored_result(key, job_id, job) == Some(result) <==> {
            &&& json::json_value(result) is Some
            &&& job.standard_result_storage_version == Some(1i16)
            &&& job.result_ciphertext matches Some(stored) && exists|encoded: Seq<char>|
                standard_data::stored_value(key, job_id, StorageDirection::Result, stored@) == Some(
                    #[trigger] vstd::utf8::encode_utf8(encoded),
                ) && crypto::base64_bytes(encoded) == Some(vstd::utf8::encode_utf8(result))
        },
{
    if let Some(stored) = job.result_ciphertext {
        let opened = standard_data::stored_value(key, job_id, StorageDirection::Result, stored@);
        let read = jobs::stored_text(
            key,
            job_id,
            StorageDirection::Result,
            job.standard_result_storage_version,
            stored@,
        );
        if let Some(encoded) = read {
            jobs::stored_texts_are_what_was_sealed(
                key,
                job_id,
                StorageDirection::Result,
                job.standard_result_storage_version,
                stored@,
                encoded,
            );
            if let Some(bytes) = crypto::base64_bytes(encoded) {
                text::texts_are_decoded_from_their_bytes(bytes, result);
            }
            assert forall|other: Seq<char>| opened == Some(
                #[trigger] vstd::utf8::encode_utf8(other),
            ) implies other == encoded by {
                vstd::utf8::encode_utf8_decode_utf8(other);
                vstd::utf8::encode_utf8_decode_utf8(encoded);
            }
        } else {
            assert forall|other: Seq<char>| job.standard_result_storage_version == Some(
                1i16,
            ) implies opened != Some(#[trigger] vstd::utf8::encode_utf8(other)) by {
                jobs::stored_texts_are_what_was_sealed(
                    key,
                    job_id,
                    StorageDirection::Result,
                    job.standard_result_storage_version,
                    stored@,
                    other,
                );
            }
        }
    }
}

/// What a failed job is reported with: what the node said, or a general word.
pub proof fn failures_are_told_in_their_words(reported: Option<String>)
    ensures
        reported matches Some(message) ==> failure_message(reported) == message@,
        reported is None ==> failure_message(reported) == "远程推理任务失败"@,
{
}

/// An error is one object with a code, a message, no parameter and a type.
pub proof fn errors_are_objects(value: Json, message: Seq<char>, error_type: Seq<char>)
    requires
        is_error_object(value, message, error_type),
    ensures
        value.member("error"@) matches Some(inner) && {
            &&& inner.member_text("code"@) == Some(error_type)
            &&& inner.member_text("message"@) == Some(message)
            &&& inner.member("param"@) == Some(Json::Null)
            &&& inner.member_text("type"@) == Some(error_type)
        },
{
    if let Json::Object(outer) = value {
        json::members_are_found_by_name(outer@, "error"@, 0);
        if let Json::Object(inner) = outer@[0].1 {
            reveal_strlit("code");
            reveal_strlit("message");
            reveal_strlit("param");
            reveal_strlit("type");
            assert("code"@[0] == 'c' && "message"@[0] == 'm' && "param"@[0] == 'p' && "type"@[0]
                == 't');
            json::members_are_found_by_name(inner@, "code"@, 0);
            json::members_are_found_by_name(inner@, "message"@, 1);
            json::members_are_found_by_name(inner@, "param"@, 2);
            json::members_are_found_by_name(inner@, "type"@, 3);
        }
    }
}

/// How frames are written: an event with its number and its data, an end with its mark, and an
/// error with its message before that mark.
pub proof fn frames_are_written_as_events(event: JobStreamEvent, terminal: GatewayStreamTerminal)
    ensures
        event_frame(event) == "id: "@ + text::decimal(event.sequence as int) + "\ndata: "@
            + event.event_data@ + "\n\n"@,
        terminal is Done ==> terminal_frame(terminal) == "data: [DONE]\n\n"@,
        terminal matches GatewayStreamTerminal::Error { message } ==> terminal_frame(terminal)
            == "data: {\"error\":{\"code\":\"stream_error\",\"message\":"@ + json_string(message@)
            + ",\"param\":null,\"type\":\"stream_error\"}}\n\ndata: [DONE]\n\n"@,
{
    if let GatewayStreamTerminal::Error { message } = terminal {
        reveal_strlit("data: ");
        reveal_strlit("\n\n");
        reveal_strlit("data: [DONE]\n\n");
        reveal_strlit("{\"error\":{\"code\":\"stream_error\",\"message\":");
        reveal_strlit("data: {\"error\":{\"code\":\"stream_error\",\"message\":");
        reveal_strlit(",\"param\":null,\"type\":\"stream_error\"}}");
        reveal_strlit(",\"param\":null,\"type\":\"stream_error\"}}\n\ndata: [DONE]\n\n");
        assert("data: "@ + "{\"error\":{\"code\":\"stream_error\",\"message\":"@
            =~= "data: {\"error\":{\"code\":\"stream_error\",\"message\":"@);
        assert(",\"param\":null,\"type\":\"stream_error\"}}"@ + "\n\n"@ + "data: [DONE]\n\n"@
            =~= ",\"param\":null,\"type\":\"stream_error\"}}\n\ndata: [DONE]\n\n"@);
        assert(terminal_frame(terminal) =~= "data: "@
            + "{\"error\":{\"code\":\"stream_error\",\"message\":"@ + json_string(message@) + (
        ",\"param\":null,\"type\":\"stream_error\"}}"@ + "\n\n"@ + "data: [DONE]\n\n"@));
    }
}

/// A stream ends well exactly once its job succeeded, everything was read and the node closed it;
/// while the job is under way it goes on as it was.
pub proof fn streams_end_with_their_job(read: StreamRead, before: Option<Seq<char>>)
    ensures
        read.status == JobStatus::Succeeded && !read.has_more && read.upstream_done ==> ends_with(
            read,
            before,
        ) == Some("data: [DONE]\n\n"@),
        read.status == JobStatus::Succeeded && (read.has_more || !read.upstream_done) ==> ends_with(
            read,
            before,
        ) == before,
        read.status == JobStatus::Queued || read.status == JobStatus::Leased ==> ends_with(
            read,
            before,
        ) == before,
        read.status == JobStatus::Failed || read.status == JobStatus::Cancelled ==> ends_with(
            read,
            before,
        ) == Some(
            error_frame(
                match read.error_message {
                    Some(message) => message@,
                    None => "远程推理任务未成功完成"@,
                },
            ),
        ),
{
}

/// What a stream will end with is its terminal frame, if it has one.
pub proof fn endings_are_the_terminal_frame(state: GatewayStreamState)
    ensures
        state.terminal is None <==> state.ending() is None,
        state.terminal matches Some(terminal) ==> state.ending() == Some(terminal_frame(terminal)),
{
}

} // verus!
