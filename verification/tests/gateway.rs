use mindone_coordinator::error::ApiError;
use mindone_coordinator::gateway::{
    cancel_timed_out_job, gateway_error_json, gateway_idempotency_key, gateway_job, read_json_text,
    wait_budget,
    wait_step, AwaitedJob, CancelStep, GatewayAction, GatewayStreamState, StreamRead, WaitStep,
    DONE_FRAME, KEEPALIVE_FRAME,
};
use mindone_coordinator::ids::Uuid;
use mindone_coordinator::jobs::{JobStatus, PayloadEncoding, StandardLimits};
use mindone_coordinator::json::{push_json_string, zeroize_json_value, Json};
use mindone_coordinator::standard_data::{encrypt_for_storage, StorageDirection};
use mindone_coordinator::streams::JobStreamEvent;

const KEY: [u8; 32] = [5; 32];
const SECOND: i128 = 1_000_000_000;

#[test]
fn zeroize_json_walks_nested_prompt_values() {
    let mut value = Json::Object(vec![(
        "messages".to_owned(),
        Json::Array(vec![Json::Object(vec![(
            "content".to_owned(),
            Json::Text("secret".to_owned()),
        )])]),
    )]);
    zeroize_json_value(&mut value);
    assert_eq!(value, Json::Null);
}

fn read(status: JobStatus, events: Vec<JobStreamEvent>, next_sequence: i32, done: bool) -> StreamRead {
    StreamRead {
        status,
        events,
        next_sequence,
        has_more: false,
        upstream_done: done,
        error_message: None,
    }
}

#[test]
fn requests_become_jobs() {
    let limits = StandardLimits {
        model: "m".to_owned(),
        minimum_input_tokens: 3,
        maximum_output_tokens: 9,
        stream: false,
    };
    let job = gateway_job(b"{}".to_vec(), limits, 4);
    assert_eq!(job.virtual_model, "m");
    assert_eq!(job.encrypted_payload, "e30=");
    assert_eq!(job.payload_encoding, PayloadEncoding::Base64);
    assert_eq!(job.estimated_input_tokens, 4);
    assert_eq!(job.max_output_tokens, 9);
    assert!(gateway_idempotency_key(Uuid::from_u128(1)).ends_with(&Uuid::from_u128(1).text()));
    assert!(wait_budget(60_000_000_000) <= 60_000_000_000);
}

#[test]
fn waiting_ends_with_the_job() {
    let id = Uuid::from_u128(1);
    let job = |status: &str, result: Option<String>, version| AwaitedJob {
        status: status.to_owned(),
        result_ciphertext: result,
        standard_result_storage_version: version,
    };
    assert!(matches!(wait_step(&KEY, id, &job("queued", None, None), None), Ok(WaitStep::Wait)));
    let sealed =
        encrypt_for_storage(&KEY, id, StorageDirection::Result, b"e30=").expect("sealed");
    match wait_step(&KEY, id, &job("succeeded", Some(sealed), Some(1)), None) {
        Ok(WaitStep::Done { result }) => assert_eq!(result, "{}"),
        _ => panic!("the result is read"),
    }
    let broken =
        encrypt_for_storage(&KEY, id, StorageDirection::Result, b"ew==").expect("sealed");
    assert_eq!(
        wait_step(&KEY, id, &job("succeeded", Some(broken), Some(1)), None).err(),
        Some(ApiError::Internal)
    );
    assert_eq!(read_json_text(b"[1]".to_vec()).as_deref(), Ok("[1]"));
    assert_eq!(read_json_text(vec![b'"', 0xff, b'"']), Err(ApiError::Internal));
    assert!(wait_step(&KEY, id, &job("succeeded", None, None), None).is_err());
    assert!(wait_step(&KEY, id, &job("failed", None, None), Some("no".to_owned())).is_err());
}

#[test]
fn cancelling_gives_the_reservation_back() {
    assert_eq!(
        cancel_timed_out_job("queued", 100, 40),
        Ok(CancelStep::Cancel { reserved_micro: 60, fail_attempt: false })
    );
    assert_eq!(
        cancel_timed_out_job("leased", 100, 40),
        Ok(CancelStep::Cancel { reserved_micro: 60, fail_attempt: true })
    );
    assert_eq!(cancel_timed_out_job("succeeded", 100, 40), Ok(CancelStep::Nothing));
    assert_eq!(cancel_timed_out_job("queued", 39, 40), Err(ApiError::Internal));
}

#[test]
fn errors_have_one_shape() {
    let value = gateway_error_json("bad key", "authentication_error");
    let spelled = r#"{"error":{"message":"bad key","type":"authentication_error","param":null,
        "code":"authentication_error"}}"#;
    assert_eq!(Json::parse(spelled), Some(value));
}

#[test]
fn streams_pass_events_on_and_end_once() {
    let mut state = GatewayStreamState::new(0, 60 * SECOND);
    assert!(matches!(state.next_gateway_stream_chunk(1), GatewayAction::Read));
    state.absorb(read(
        JobStatus::Succeeded,
        vec![
            JobStreamEvent { sequence: 0, event_data: "{\"a\":1}".to_owned() },
            JobStreamEvent { sequence: 1, event_data: "{\"a\":2}".to_owned() },
        ],
        2,
        true,
    ));
    match state.next_gateway_stream_chunk(2) {
        GatewayAction::Emit { frame } => assert_eq!(frame, "id: 0\ndata: {\"a\":1}\n\n"),
        _ => panic!("the first event is passed on"),
    }
    match state.next_gateway_stream_chunk(2) {
        GatewayAction::Emit { frame } => assert_eq!(frame, "id: 1\ndata: {\"a\":2}\n\n"),
        _ => panic!("the second event is passed on"),
    }
    match state.next_gateway_stream_chunk(3) {
        GatewayAction::Emit { frame } => assert_eq!(frame, DONE_FRAME),
        _ => panic!("the stream is closed"),
    }
    assert!(matches!(state.next_gateway_stream_chunk(4), GatewayAction::Finish));
}

#[test]
fn silent_streams_are_kept_alive_and_late_ones_cancelled() {
    let mut state = GatewayStreamState::new(0, 60 * SECOND);
    assert!(!matches!(state.idle(1), Some(GatewayAction::Emit { .. })));
    match state.idle(15 * SECOND) {
        Some(GatewayAction::Emit { frame }) => assert_eq!(frame, KEEPALIVE_FRAME),
        _ => panic!("the stream is kept alive"),
    }
    assert!(matches!(state.next_gateway_stream_chunk(60 * SECOND), GatewayAction::Cancel));
    state.cancelled(true);
    match state.next_gateway_stream_chunk(60 * SECOND + 1) {
        GatewayAction::Emit { frame } => assert!(frame.contains("error")),
        _ => panic!("the end is told"),
    }
    assert!(matches!(state.next_gateway_stream_chunk(60 * SECOND + 2), GatewayAction::Finish));
}

#[test]
fn literals_escape_what_json_asks_for() {
    let literal = |value: &str| {
        let mut out = String::new();
        push_json_string(&mut out, value);
        out
    };
    assert_eq!(literal(""), "\"\"");
    assert_eq!(literal("a/真\u{7f}\u{2028}"), "\"a/真\u{7f}\u{2028}\"");
    assert_eq!(literal("\"\\"), r#""\"\\""#);
    assert_eq!(literal("\u{8}\t\n\u{c}\r"), r#""\b\t\n\f\r""#);
    assert_eq!(literal("\0\u{b}\u{1f}"), r#""\u0000\u000b\u001f""#);
    for value in ["", "\"", "\\u0000", "\0", "a\nb"] {
        assert_eq!(Json::parse(&literal(value)), Some(Json::Text(value.to_owned())));
    }
}

#[test]
fn failed_reads_end_the_stream() {
    let mut state = GatewayStreamState::new(0, 60 * SECOND);
    state.read_failed("broken \"pipe\"".to_owned());
    match state.next_gateway_stream_chunk(1) {
        GatewayAction::Emit { frame } => assert!(frame.contains("broken \\\"pipe\\\"")),
        _ => panic!("the failure is told"),
    }
}
