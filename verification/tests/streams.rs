use mindone_coordinator::error::ApiError;
use mindone_coordinator::ids::Uuid;
use mindone_coordinator::json::Json;
use mindone_coordinator::standard_data::{decrypt_from_storage, StorageDirection};
use mindone_coordinator::streams::{
    append_job_stream_event, authorize_append, authorize_read, check_read, check_settled_stream,
    check_transcript, finish_read, open_events, requested_choices, stream_page,
    validate_standard_stream_data, validate_standard_stream_text, AppendAnswer, Endpoint, ExistingEvent, JobStreamEventKind, JobStreamEventRequest,
    JobStreamReadQuery, NewEvent, ParsedEvent, StoredEvent, StreamBounds, StreamJobRow, StreamState,
    StreamTotals, StreamTranscript,
};

const NOW: i128 = 1_700_000_000_000_000_000;
const KEY: [u8; 32] = [5; 32];
const JOB: Uuid = Uuid { value: 1 };
const BOUNDS: StreamBounds = StreamBounds { max_events: 100, max_total_bytes: 1_000 };

fn text(value: &str) -> Json {
    Json::Text(value.to_owned())
}

fn number(value: i64) -> Json {
    Json::Number { signed: Some(value), unsigned: u64::try_from(value).ok() }
}

fn chunk(model: &str) -> Json {
    Json::Object(vec![
        ("id".to_owned(), text("chunk-1")),
        ("object".to_owned(), text("chat.completion.chunk")),
        ("created".to_owned(), number(1)),
        ("model".to_owned(), text(model)),
        (
            "choices".to_owned(),
            Json::Array(vec![Json::Object(vec![
                ("index".to_owned(), number(0)),
                ("delta".to_owned(), Json::Object(vec![("content".to_owned(), text("hi"))])),
                ("finish_reason".to_owned(), Json::Null),
            ])]),
        ),
    ])
}

/// A chunk of the protocol, as it is sent.
const CHUNK: &str = r#"{"id":"chunk-1","object":"chat.completion.chunk","created":1,"model":"m",
    "choices":[{"index":0,"delta":{"content":"hi"},"finish_reason":null}]}"#;

fn event(sequence: i32, kind: JobStreamEventKind, data: Option<&str>) -> JobStreamEventRequest {
    JobStreamEventRequest {
        node_id: Uuid::from_u128(2),
        attempt: 1,
        sequence,
        idempotency_key: format!("key-{sequence}"),
        kind,
        event_data: data.map(str::to_owned),
    }
}

fn state(event_count: i64, upstream_done: bool) -> StreamState {
    StreamState {
        stream: true,
        max_attempts: 1,
        endpoint: Endpoint::ChatCompletions,
        request: Json::Null,
        authorized_model: "m".to_owned(),
        totals: StreamTotals { event_count, total_bytes: 10 * event_count, upstream_done },
    }
}

fn append(request: &JobStreamEventRequest, state: &StreamState) -> Result<NewEvent, ApiError> {
    match append_job_stream_event(&KEY, JOB, request, state, BOUNDS, &None) {
        Ok(AppendAnswer::Store(event)) => Ok(event),
        Ok(AppendAnswer::Replay) => panic!("nothing is stored yet"),
        Err(refused) => Err(refused),
    }
}

#[test]
fn chunks_are_those_of_the_protocol() {
    let check = |data| {
        validate_standard_stream_data(Endpoint::ChatCompletions, None, "m", &data)
    };
    assert_eq!(check(Some(chunk("m"))), Ok(()));
    assert!(check(Some(chunk("n"))).is_err());
    assert!(check(None).is_err());
    assert!(check(Some(Json::Null)).is_err());
    assert!(
        validate_standard_stream_data(Endpoint::Completions, None, "m", &Some(chunk("m"))).is_err()
    );
    assert!(
        validate_standard_stream_data(Endpoint::Other, None, "m", &Some(chunk("m"))).is_err()
    );
}

#[test]
fn texts_are_read_as_what_they_say() {
    assert_eq!(Json::parse(" null "), Some(Json::Null));
    assert_eq!(Json::parse("[true,\"a\\n\"]"), Some(Json::Array(vec![Json::Bool(true), text("a\n")])));
    assert_eq!(
        Json::parse("[1,-1,18446744073709551615,0.5]"),
        Some(Json::Array(vec![
            number(1),
            number(-1),
            Json::Number { signed: None, unsigned: Some(u64::MAX) },
            Json::Number { signed: None, unsigned: None },
        ]))
    );
    assert_eq!(Json::parse("{\"a\":1"), None);
    assert_eq!(Json::parse(""), None);
    let request = Json::parse("{\"n\":2,\"messages\":[]}").expect("a request");
    assert_eq!(requested_choices(&request), Some(2));
    assert_eq!(requested_choices(&Json::Null), None);
    let check = |model, data| {
        validate_standard_stream_text(Endpoint::ChatCompletions, None, model, data)
    };
    assert_eq!(check("m", CHUNK), Ok(()));
    assert_eq!(
        check("n", CHUNK),
        Err(ApiError::bad_request(
            "invalid_stream_event",
            "SSE 元数据与任务端点或授权模型不一致"
        ))
    );
    assert_eq!(
        check("m", "{"),
        Err(ApiError::bad_request("invalid_stream_event", "SSE data 不是合法 JSON"))
    );
    assert_eq!(
        check("m", "[]"),
        Err(ApiError::bad_request("invalid_stream_event", "SSE data 必须是 JSON 对象"))
    );
}

#[test]
fn the_request_says_how_many_choices_there_are() {
    let second = CHUNK.replace("\"index\":0", "\"index\":1");
    let request = event(0, JobStreamEventKind::Data, Some(second.as_str()));
    assert_eq!(
        append(&request, &state(0, false)).err(),
        Some(ApiError::bad_request("invalid_stream_event", "SSE choice index 超出授权范围"))
    );
    let mut two = state(0, false);
    two.request = Json::parse("{\"n\":2}").expect("a request");
    assert!(append(&request, &two).is_ok());
}

#[test]
fn only_the_live_lease_appends() {
    let row = || StreamJobRow {
        node_user_id: Uuid::from_u128(3),
        leased_to_node_id: Some(Uuid::from_u128(2)),
        claim_device_bound: true,
        status: "leased".to_owned(),
        lease_expires_at: Some(NOW + 1),
        attempt_count: 1,
        confidentiality: "standard".to_owned(),
    };
    let request = event(0, JobStreamEventKind::Data, Some("{}"));
    let check = |row: StreamJobRow| authorize_append(&row, Uuid::from_u128(3), &request, NOW);
    assert_eq!(check(row()), Ok(()));
    let mut unbound = row();
    unbound.claim_device_bound = false;
    assert_eq!(check(unbound), Err(ApiError::forbidden("任务租约不属于当前节点设备")));
    let mut late = row();
    late.lease_expires_at = Some(NOW);
    assert!(matches!(check(late), Err(ApiError::Conflict { code: "stream_lease_invalid", .. })));
    let mut other = row();
    other.attempt_count = 2;
    assert!(matches!(check(other), Err(ApiError::Conflict { code: "stream_lease_invalid", .. })));
    let mut regulated = row();
    regulated.confidentiality = "regulated".to_owned();
    assert!(matches!(
        check(regulated),
        Err(ApiError::BadRequest { code: "stream_not_supported", .. })
    ));
}

#[test]
fn events_are_appended_in_order_and_sealed() {
    let said = CHUNK.replace("\"hi\"", "\"真\"");
    let request = event(0, JobStreamEventKind::Data, Some(said.as_str()));
    let stored = append(&request, &state(0, false)).expect("appended");
    assert_eq!(stored.event_kind, "data");
    assert_eq!(stored.storage_version, Some(1));
    assert_eq!(stored.plaintext_bytes, CHUNK.len() as i32 + 1);
    assert_eq!(
        decrypt_from_storage(
            &KEY,
            JOB,
            StorageDirection::StreamEvent { attempt_number: 1, sequence_number: 0 },
            stored.stored_event.as_deref().expect("sealed"),
        ),
        Ok(said.as_bytes().to_vec())
    );
    assert!(matches!(
        append(&request, &state(1, false)),
        Err(ApiError::Conflict { code: "stream_sequence_mismatch", .. })
    ));
    let second = event(1, JobStreamEventKind::Data, Some("{}"));
    assert!(matches!(
        append(&second, &state(1, true)),
        Err(ApiError::Conflict { code: "stream_already_done", .. })
    ));
    let done = event(1, JobStreamEventKind::UpstreamDone, None);
    let closing = append(&done, &state(1, false)).expect("closed");
    assert_eq!(closing.event_kind, "upstream_done");
    assert_eq!(closing.stored_event, None);
    assert_eq!(closing.plaintext_bytes, 0);
    let early = event(0, JobStreamEventKind::UpstreamDone, None);
    assert!(append(&early, &state(0, false)).is_err());
    let long = CHUNK.replace("hi", &"x".repeat(1_001));
    let large = event(0, JobStreamEventKind::Data, Some(long.as_str()));
    assert!(matches!(
        append(&large, &state(0, false)),
        Err(ApiError::BadRequest { code: "stream_too_large", .. })
    ));
    let mut unasked = state(0, false);
    unasked.stream = false;
    assert!(matches!(
        append(&request, &unasked),
        Err(ApiError::BadRequest { code: "stream_not_requested", .. })
    ));
}

#[test]
fn stored_events_are_accepted_again_and_no_others() {
    let request = event(0, JobStreamEventKind::Data, Some(CHUNK));
    let stored = append(&request, &state(0, false)).expect("appended");
    let existing = Some(ExistingEvent {
        attempt: 1,
        sequence: 0,
        idempotency_key: "key-0".to_owned(),
        event_kind: stored.event_kind.to_owned(),
        ciphertext: stored.stored_event,
        storage_version: stored.storage_version,
        plaintext_bytes: stored.plaintext_bytes,
    });
    let again = |request: &JobStreamEventRequest| {
        append_job_stream_event(&KEY, JOB, request, &state(1, false), BOUNDS, &existing)
    };
    assert!(matches!(again(&request), Ok(AppendAnswer::Replay)));
    let other = event(0, JobStreamEventKind::Data, Some("[]"));
    assert_eq!(
        again(&other).err(),
        Some(ApiError::conflict(
            "idempotency_binding_mismatch",
            "流式事件幂等键已绑定到不同正文"
        ))
    );
    let moved = event(1, JobStreamEventKind::Data, Some(CHUNK));
    assert_eq!(
        again(&moved).err(),
        Some(ApiError::conflict(
            "idempotency_binding_mismatch",
            "流式事件 sequence 或幂等键已绑定到不同事件"
        ))
    );
}

#[test]
fn transcripts_are_gapless_and_closed() {
    let whole = StreamTranscript {
        event_count: 2,
        first_sequence: 0,
        last_sequence: 1,
        done_count: 1,
        done_sequence: 1,
    };
    assert_eq!(check_transcript(whole), Ok(()));
    assert!(check_transcript(StreamTranscript { last_sequence: 2, ..whole }).is_err());
    assert!(check_transcript(StreamTranscript { done_count: 0, ..whole }).is_err());
    assert!(check_transcript(StreamTranscript { done_sequence: 0, ..whole }).is_err());
    assert_eq!(check_settled_stream(true, true), Ok(()));
    assert!(check_settled_stream(true, false).is_err());
    assert_eq!(check_settled_stream(false, false), Ok(()));
}

#[test]
fn readers_get_what_was_stored() {
    let request = event(0, JobStreamEventKind::Data, Some(CHUNK));
    let stored = append(&request, &state(0, false)).expect("appended");
    let rows = vec![StoredEvent {
        sequence: 0,
        storage_version: stored.storage_version,
        ciphertext: stored.stored_event,
        plaintext_bytes: stored.plaintext_bytes,
    }];
    let (events, complete) = open_events(&KEY, JOB, 1, &rows);
    assert!(complete);
    assert_eq!(events[0].event_data, CHUNK);
    let next = |model| finish_read(0, &events, complete, Endpoint::ChatCompletions, None, model);
    assert_eq!(next("m"), Ok(1));
    assert!(next("n").is_err());
    let check = |data| {
        let parsed = vec![ParsedEvent { sequence: 4, data }];
        check_read(0, &parsed, complete, Endpoint::ChatCompletions, None, "m")
    };
    assert_eq!(check(Some(chunk("m"))), Ok(5));
    assert!(check(None).is_err());
    assert_eq!(
        check_read(7, &Vec::new(), false, Endpoint::ChatCompletions, None, "m"),
        Err(ApiError::Internal)
    );
    let (none, complete) = open_events(&KEY, JOB, 2, &rows);
    assert!(none.is_empty());
    assert!(!complete);
}

#[test]
fn reading_is_for_the_consumer_in_pages() {
    let consumer = Uuid::from_u128(1);
    assert_eq!(authorize_read(consumer, consumer, "standard"), Ok(()));
    assert!(authorize_read(consumer, Uuid::from_u128(2), "standard").is_err());
    assert!(authorize_read(consumer, consumer, "regulated").is_err());
    let page = |from_sequence, limit| {
        stream_page(&JobStreamReadQuery { from_sequence, limit }, 100)
    };
    assert_eq!(page(None, None), Ok((0, 8)));
    assert_eq!(page(Some(5), Some(32)), Ok((5, 32)));
    assert!(page(Some(-1), None).is_err());
    assert!(page(None, Some(0)).is_err());
    assert!(page(None, Some(33)).is_err());
}
