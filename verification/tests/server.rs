use ag_ui::server::agent::{
    health_failure, health_response, HealthStatus, RequestMetadata,
};
use ag_ui::server::encoder::{encode, event_type_str, ContentType, EventEncoder, MAX_EVENT_SIZE};
use ag_ui::server::error::{error_code, AgentError, EncodeError, StateError, TransportError};
use ag_ui::server::http::{
    agent_error_event, default_accept, encode_error_event, encoding_failed_frame, error_body,
    error_frame, escape_quotes, event_frame, fallback_error_frame, response_headers, route_paths,
    RequestFailure,
};
use ag_ui::event::EventType;
use ag_ui::text_map::TextMap;

fn run_started_json() -> &'static str {
    r#"{"type":"RUN_STARTED","threadId":"thread-1","runId":"run-1"}"#
}

fn run_finished_json() -> &'static str {
    r#"{"type":"RUN_FINISHED","threadId":"thread-1","runId":"run-1"}"#
}

#[test]
fn content_type_from_accept_sse() {
    assert_eq!(
        ContentType::from_accept("text/event-stream"),
        ContentType::Sse
    );
    assert_eq!(ContentType::from_accept("*/*"), ContentType::Sse);
    assert_eq!(
        ContentType::from_accept("text/html, text/event-stream"),
        ContentType::Sse
    );
}

#[test]
fn content_type_default_fallback() {
    assert_eq!(
        ContentType::from_accept("application/json"),
        ContentType::Sse
    );
    assert_eq!(ContentType::from_accept(""), ContentType::Sse);
}

#[test]
fn content_type_as_str() {
    assert_eq!(ContentType::Sse.as_str(), "text/event-stream");
}

#[test]
fn content_type_is_binary() {
    assert!(!ContentType::Sse.is_binary());
}

#[test]
fn encoder_from_accept() {
    let encoder = EventEncoder::from_accept("text/event-stream");
    assert_eq!(encoder.content_type(), "text/event-stream");
}

#[test]
fn encoder_encode_sse() {
    let encoder = EventEncoder::sse();
    let bytes = encoder.encode(run_started_json()).expect("encoding should succeed");

    let s = std::str::from_utf8(&bytes).expect("valid UTF-8");
    assert!(s.starts_with("data: "));
    assert!(s.ends_with("\n\n"));
    assert!(s.contains("RUN_STARTED"));
}

#[test]
fn encoder_encode_batch() {
    let encoder = EventEncoder::sse();
    let events = vec![run_started_json().to_string(), run_finished_json().to_string()];
    let bytes = encoder
        .encode_batch(&events)
        .expect("batch encoding should succeed");

    let s = std::str::from_utf8(&bytes).expect("valid UTF-8");
    assert!(s.contains("RUN_STARTED"));
    assert!(s.contains("RUN_FINISHED"));

    assert_eq!(s.matches("\n\n").count(), 2);
}

#[test]
fn encoder_default_is_sse() {
    let encoder = EventEncoder::default();
    assert_eq!(encoder.content_type(), "text/event-stream");
}

#[test]
fn encode_run_started() {
    let json = r#"{"type":"RUN_STARTED","threadId":"thread-123","runId":"run-456"}"#;
    let bytes = encode(json).expect("encoding should succeed");
    let s = std::str::from_utf8(&bytes).expect("valid UTF-8");

    assert!(s.starts_with("data: "));
    assert!(s.ends_with("\n\n"));
    assert!(s.contains("\"type\":\"RUN_STARTED\""));
}

#[test]
fn encode_run_finished() {
    let json = r#"{"type":"RUN_FINISHED","threadId":"t1","runId":"r1","result":{"answer":42}}"#;
    let bytes = encode(json).expect("encoding should succeed");
    let s = std::str::from_utf8(&bytes).expect("valid UTF-8");

    assert!(s.contains("RUN_FINISHED"));
    assert!(s.contains("\"answer\":42"));
}

#[test]
fn encode_run_error() {
    let json = r#"{"type":"RUN_ERROR","message":"something went wrong","code":"ERR_001"}"#;
    let bytes = encode(json).expect("encoding should succeed");
    let s = std::str::from_utf8(&bytes).expect("valid UTF-8");

    assert!(s.contains("RUN_ERROR"));
    assert!(s.contains("something went wrong"));
    assert!(s.contains("ERR_001"));
}

#[test]
fn encode_text_message_flow() {
    let start = r#"{"type":"TEXT_MESSAGE_START","messageId":"msg-1","role":"assistant"}"#;
    let content = r#"{"type":"TEXT_MESSAGE_CONTENT","messageId":"msg-1","delta":"Hello, world!"}"#;
    let end = r#"{"type":"TEXT_MESSAGE_END","messageId":"msg-1"}"#;

    for json in [start, content, end] {
        let bytes = encode(json).expect("encoding should succeed");
        let s = std::str::from_utf8(&bytes).expect("valid UTF-8");
        assert!(s.starts_with("data: "));
        assert!(s.ends_with("\n\n"));
    }
}

#[test]
fn encode_state_snapshot() {
    let json = r#"{"type":"STATE_SNAPSHOT","snapshot":{"count":42,"items":["a","b","c"]}}"#;
    let bytes = encode(json).expect("encoding should succeed");
    let s = std::str::from_utf8(&bytes).expect("valid UTF-8");

    assert!(s.contains("STATE_SNAPSHOT"));
    assert!(s.contains("\"count\":42"));
}

#[test]
fn encode_custom_event() {
    let json = r#"{"type":"CUSTOM","name":"my_custom_event","value":{"foo":"bar"}}"#;
    let bytes = encode(json).expect("encoding should succeed");
    let s = std::str::from_utf8(&bytes).expect("valid UTF-8");

    assert!(s.contains("CUSTOM"));
    assert!(s.contains("my_custom_event"));
}

#[test]
fn encode_with_timestamp() {
    let json = r#"{"type":"RUN_STARTED","timestamp":1234567890.123,"threadId":"t1","runId":"r1"}"#;
    let bytes = encode(json).expect("encoding should succeed");
    let s = std::str::from_utf8(&bytes).expect("valid UTF-8");

    assert!(s.contains("1234567890.123"));
}

#[test]
fn encode_unicode_content() {
    let json = "{\"type\":\"TEXT_MESSAGE_CONTENT\",\"messageId\":\"msg-1\",\"delta\":\"Hello, 世界! 🌍\"}";
    let bytes = encode(json).expect("encoding should succeed");
    let s = std::str::from_utf8(&bytes).expect("valid UTF-8");

    assert!(s.contains("世界") || s.contains("\\u"));
    assert!(s.contains("🌍") || s.contains("\\u"));
    assert_eq!(s, format!("data: {}\n\n", json));
}

#[test]
fn encode_special_characters() {
    let json = r#"{"type":"TEXT_MESSAGE_CONTENT","messageId":"msg-1","delta":"Line1\nLine2\tTabbed\"Quoted\""}"#;
    let bytes = encode(json).expect("encoding should succeed");
    let s = std::str::from_utf8(&bytes).expect("valid UTF-8");

    assert!(s.contains("\\n") || s.contains("\\t") || s.contains("\\\""));
}

#[test]
fn encode_empty_delta() {
    let json = r#"{"type":"TEXT_MESSAGE_CONTENT","messageId":"msg-1","delta":""}"#;
    let bytes = encode(json).expect("encoding should succeed");
    let s = std::str::from_utf8(&bytes).expect("valid UTF-8");

    assert!(s.contains("\"delta\":\"\""));
}

#[test]
fn sse_format_correct() {
    let json = r#"{"type":"RUN_STARTED","threadId":"t1","runId":"r1"}"#;
    let bytes = encode(json).expect("encoding should succeed");
    let s = std::str::from_utf8(&bytes).expect("valid UTF-8");

    assert!(s.starts_with("data: {"));
    assert!(s.ends_with("}\n\n"));

    let json_str = s.trim_start_matches("data: ").trim_end();
    let _: serde_json::Value = serde_json::from_str(json_str).expect("should be valid JSON");
}

#[test]
fn single_line_frame_is_exact() {
    let bytes = encode("{}").unwrap();
    assert_eq!(&bytes[..], b"data: {}\n\n");
    assert_eq!(bytes.len(), 6 + 2 + 2);
    assert_eq!(&encode("").unwrap()[..], b"data: \n\n");
}

#[test]
fn multi_line_json_is_framed_line_by_line() {
    let bytes = encode("{\n  \"a\": 1\n}").unwrap();
    assert_eq!(&bytes[..], b"data: {\ndata:   \"a\": 1\ndata: }\n\n");

    // A carriage return before a line feed belongs to the line ending.
    assert_eq!(&encode("a\r\nb").unwrap()[..], b"data: a\ndata: b\n\n");
    // A line feed at the end starts no further line.
    assert_eq!(&encode("a\n").unwrap()[..], b"data: a\n\n");
    // An empty line in the middle is kept.
    assert_eq!(&encode("a\n\nb").unwrap()[..], b"data: a\ndata: \ndata: b\n\n");
    // A lone carriage return at the end of the text stays.
    assert_eq!(&encode("a\nb\r").unwrap()[..], b"data: a\ndata: b\r\n\n");
}

#[test]
fn event_above_the_limit_is_rejected() {
    let at_limit = "x".repeat(MAX_EVENT_SIZE);
    assert_eq!(encode(&at_limit).unwrap().len(), MAX_EVENT_SIZE + 8);

    let too_large = "x".repeat(MAX_EVENT_SIZE + 1);
    let err = encode(&too_large).unwrap_err();
    assert_eq!(err, EncodeError::EventTooLarge { size: 1048577, max: 1048576 });
    assert_eq!(
        err.to_string(),
        "event exceeds max size: 1048577 bytes > 1048576 bytes limit"
    );
}

#[test]
fn batch_fails_on_the_first_oversized_event() {
    let encoder = EventEncoder::sse();
    let events = vec!["{}".to_string(), "x".repeat(MAX_EVENT_SIZE + 5), "{}".to_string()];
    assert_eq!(
        encoder.encode_batch(&events).unwrap_err(),
        EncodeError::EventTooLarge { size: MAX_EVENT_SIZE + 5, max: MAX_EVENT_SIZE }
    );
    assert_eq!(encoder.encode_batch(&Vec::new()).unwrap().len(), 0);
    let two = encoder.encode_batch(&vec!["1".to_string(), "2".to_string()]).unwrap();
    assert_eq!(&two[..], b"data: 1\n\ndata: 2\n\n");
}

#[test]
fn every_accept_header_is_answered_with_sse() {
    assert_eq!(ContentType::from_accept("application/x-ag-ui-proto"), ContentType::Sse);
    assert_eq!(
        ContentType::from_accept("text/event-stream, application/x-ag-ui-proto;q=0.9"),
        ContentType::Sse
    );
    assert_eq!(ContentType::default(), ContentType::Sse);
    let encoder = EventEncoder::from_accept("application/x-ag-ui-proto");
    assert_eq!(encoder.content_type_enum(), ContentType::Sse);
    assert_eq!(&encoder.encode("{}").unwrap()[..], b"data: {}\n\n");
}

#[test]
fn the_binary_encoder_does_not_take_json_text() {
    assert!(ContentType::Proto.is_binary());
    assert_eq!(ContentType::Proto.as_str(), "application/x-ag-ui-proto");

    let encoder = EventEncoder::proto();
    assert_eq!(encoder.content_type_enum(), ContentType::Proto);
    assert_eq!(encoder.content_type(), "application/x-ag-ui-proto");
    let err = encoder.encode("{}").unwrap_err();
    assert_eq!(
        err.to_string(),
        "unsupported content type: application/x-ag-ui-proto (supported: text/event-stream, application/x-ag-ui-proto)"
    );
    assert!(encoder.encode_batch(&vec!["{}".to_string()]).is_err());
}

#[test]
fn event_type_names_on_the_wire() {
    assert_eq!(event_type_str(EventType::TextMessageStart), "TEXT_MESSAGE_START");
    assert_eq!(
        event_type_str(EventType::ThinkingTextMessageContent),
        "THINKING_TEXT_MESSAGE_CONTENT"
    );
    assert_eq!(event_type_str(EventType::ToolCallResult), "TOOL_CALL_RESULT");
    assert_eq!(event_type_str(EventType::MessagesSnapshot), "MESSAGES_SNAPSHOT");
    assert_eq!(event_type_str(EventType::Raw), "RAW");
    assert_eq!(event_type_str(EventType::StepFinished), "STEP_FINISHED");
}

#[test]
fn agent_error_is_cancelled() {
    let err = AgentError::Aborted {
        reason: "user cancelled".into(),
    };
    assert!(err.is_cancelled());

    let err = AgentError::custom("other error");
    assert!(!err.is_cancelled());
}

#[test]
fn agent_error_is_recoverable() {
    let err = AgentError::Aborted {
        reason: "timeout".into(),
    };
    assert!(err.is_recoverable());

    let err = AgentError::Transport(TransportError::Timeout { duration_ms: 5000 });
    assert!(err.is_recoverable());

    let err = AgentError::State(StateError::MutexPoisoned);
    assert!(!err.is_recoverable());
}

#[test]
fn custom_error_with_source() {
    let source = std::io::Error::new(std::io::ErrorKind::Other, "underlying error");
    let err = AgentError::custom_with_source("operation failed", &source.to_string());
    assert!(matches!(err, AgentError::Custom { .. }));
    match err {
        AgentError::Custom { source, .. } => assert_eq!(source.as_deref(), Some("underlying error")),
        _ => unreachable!(),
    }
}

#[test]
fn internal_error_macro() {
    let err = AgentError::internal("unexpected condition", "error.rs:1");
    match err {
        AgentError::Internal { message, location } => {
            assert_eq!(message, "unexpected condition");
            assert!(location.contains("error.rs"));
        }
        _ => panic!("expected Internal variant"),
    }
}

#[test]
fn state_error_from_poison() {
    let mutex = std::sync::Mutex::new(42);
    let _guard = mutex.lock().expect("initial lock");

    let poison_err: Result<(), StateError> = Err(StateError::MutexPoisoned);
    assert!(matches!(poison_err, Err(StateError::MutexPoisoned)));
}

#[test]
fn error_display_messages() {
    let err = AgentError::ProtocolViolation {
        event_type: "TEXT_MESSAGE_CONTENT",
        violation: "no active message stream".into(),
    };
    assert_eq!(
        err.to_string(),
        "protocol violation in TEXT_MESSAGE_CONTENT: no active message stream"
    );

    let err = StateError::PatchFailed {
        op: "replace".into(),
        path: "/foo/bar".into(),
        reason: "path does not exist".into(),
    };
    assert_eq!(
        err.to_string(),
        "patch failed: replace at '/foo/bar' - path does not exist"
    );
}

#[test]
fn every_error_has_its_text() {
    assert_eq!(
        AgentError::Aborted { reason: "client disconnect".into() }.to_string(),
        "run aborted: client disconnect"
    );
    assert_eq!(
        AgentError::State(StateError::InvalidPatch { reason: "no op".into() }).to_string(),
        "state error: invalid patch document: no op"
    );
    assert_eq!(
        AgentError::Encoding(EncodeError::json("RUN_STARTED", "key must be a string".into()))
            .to_string(),
        "encoding error: JSON serialization failed for RUN_STARTED: key must be a string"
    );
    assert_eq!(
        AgentError::Transport(TransportError::Timeout { duration_ms: 5000 }).to_string(),
        "transport error: request timed out after 5000ms"
    );
    assert_eq!(AgentError::custom("boom").to_string(), "boom");
    assert_eq!(AgentError::internal("bad", "a.rs:3").to_string(), "internal error: bad");
    assert_eq!(
        StateError::MutexPoisoned.to_string(),
        "state mutex poisoned - concurrent panic detected, state may be corrupted"
    );
    assert_eq!(
        StateError::MessageNotFound { id: "m1".into() }.to_string(),
        "message 'm1' not found in conversation state"
    );
    assert_eq!(
        StateError::DuplicateMessage { id: "m1".into() }.to_string(),
        "duplicate message id: 'm1' already exists"
    );
    assert_eq!(
        StateError::ToolCallNotFound { id: "tc".into(), message_id: "m1".into() }.to_string(),
        "tool call 'tc' not found in message 'm1'"
    );
    assert_eq!(
        StateError::Serialization { reason: "nan".into() }.to_string(),
        "state serialization failed: nan"
    );
    assert_eq!(
        TransportError::ClientDisconnected { reason: "reset".into() }.to_string(),
        "client disconnected: reset"
    );
    assert_eq!(
        TransportError::HttpError { status: 404, message: "not found".into() }.to_string(),
        "HTTP 404: not found"
    );
    assert_eq!(
        TransportError::ConnectionFailed { reason: "refused".into() }.to_string(),
        "connection failed: refused"
    );
    assert_eq!(
        TransportError::Timeout { duration_ms: 0 }.to_string(),
        "request timed out after 0ms"
    );
    assert_eq!(
        TransportError::Timeout { duration_ms: u64::MAX }.to_string(),
        "request timed out after 18446744073709551615ms"
    );
}

#[test]
fn error_codes_by_kind() {
    assert_eq!(error_code(&AgentError::Aborted { reason: "x".into() }), "ABORTED");
    assert_eq!(
        error_code(&AgentError::ProtocolViolation { event_type: "RAW", violation: "x".into() }),
        "PROTOCOL_VIOLATION"
    );
    assert_eq!(error_code(&AgentError::State(StateError::MutexPoisoned)), "STATE_ERROR");
    assert_eq!(
        error_code(&AgentError::Encoding(EncodeError::UnsupportedContentType {
            content_type: "x".into()
        })),
        "ENCODING_ERROR"
    );
    assert_eq!(
        error_code(&AgentError::Transport(TransportError::Timeout { duration_ms: 1 })),
        "TRANSPORT_ERROR"
    );
    assert_eq!(error_code(&AgentError::custom("x")), "CUSTOM_ERROR");
    assert_eq!(error_code(&AgentError::internal("x", "y")), "INTERNAL_ERROR");
}

#[test]
fn request_metadata_from_headers() {
    let headers = vec![
        ("authorization".to_string(), "Bearer token".to_string()),
        ("x-request-id".to_string(), "req-123".to_string()),
        ("x-trace-id".to_string(), "trace-456".to_string()),
        ("user-agent".to_string(), "test-client/1.0".to_string()),
    ];

    let metadata = RequestMetadata::from_headers(&headers);

    assert_eq!(metadata.request_id, Some("req-123".to_string()));
    assert_eq!(metadata.trace_id, Some("trace-456".to_string()));
    assert_eq!(metadata.headers.get("authorization"), Some("Bearer token"));
    assert_eq!(metadata.headers.get("user-agent"), Some("test-client/1.0"));
}

#[test]
fn from_headers_keeps_only_what_it_knows() {
    let headers = vec![
        ("accept".to_string(), "text/event-stream".to_string()),
        ("user-agent".to_string(), "first".to_string()),
        ("user-agent".to_string(), "second".to_string()),
    ];
    let metadata = RequestMetadata::from_headers(&headers);
    assert_eq!(metadata.headers.get("user-agent"), Some("first"));
    assert_eq!(metadata.accept(), None);
    assert_eq!(metadata.authorization(), None);
    assert_eq!(metadata.request_id, None);
    assert_eq!(metadata.trace_id, None);
    assert_eq!(metadata.remote_addr, None);
}

#[test]
fn context_metadata_access() {
    let mut headers = TextMap::new();
    headers.insert("authorization".to_string(), "Bearer token123".to_string());
    headers.insert("x-custom".to_string(), "value".to_string());

    let metadata = RequestMetadata::with_headers(headers)
        .with_remote_addr("192.168.1.1")
        .with_request_id("req-123");

    assert_eq!(metadata.headers.get("authorization"), Some("Bearer token123"));
    assert_eq!(metadata.headers.get("x-custom"), Some("value"));
    assert_eq!(metadata.headers.get("nonexistent"), None);
    assert_eq!(metadata.remote_addr, Some("192.168.1.1".to_string()));
    assert_eq!(metadata.authorization(), Some("Bearer token123"));
}

#[test]
fn text_map_last_insert_wins() {
    let mut m = TextMap::new();
    assert!(!m.contains_key("a"));
    m.insert("a".to_string(), "1".to_string());
    m.insert("b".to_string(), "2".to_string());
    m.insert("a".to_string(), "3".to_string());
    assert_eq!(m.get("a"), Some("3"));
    assert_eq!(m.get("b"), Some("2"));
    assert!(m.contains_key("b"));
    assert_eq!(m.clone().get("a"), Some("3"));

    let metadata = RequestMetadata::default()
        .with_trace_id("t-1");
    assert_eq!(metadata.trace_id, Some("t-1".to_string()));
    assert_eq!(metadata.content_type(), None);
}

#[test]
fn health_status_display() {
    assert_eq!(HealthStatus::Healthy.to_string(), "healthy");
    assert_eq!(
        HealthStatus::degraded("high latency").to_string(),
        "degraded: high latency"
    );
    assert_eq!(
        HealthStatus::unhealthy("database down").to_string(),
        "unhealthy: database down"
    );
}

#[test]
fn health_status_is_healthy() {
    assert!(HealthStatus::Healthy.is_healthy());
    assert!(HealthStatus::degraded("minor issue").is_healthy());
    assert!(!HealthStatus::unhealthy("critical").is_healthy());
}

#[test]
fn health_endpoint_answers() {
    let (code, body) = health_response(HealthStatus::Healthy, "agent");
    assert_eq!(code, 200);
    assert_eq!(body.status, "healthy");
    assert_eq!(body.agent, "agent");
    assert_eq!(body.details, None);

    let (code, body) = health_response(HealthStatus::degraded("slow"), "a");
    assert_eq!(code, 200);
    assert_eq!(body.status, "degraded");
    assert_eq!(body.details, Some("slow".to_string()));

    let (code, body) = health_response(HealthStatus::unhealthy("down"), "a");
    assert_eq!(code, 503);
    assert_eq!(body.status, "unhealthy");
    assert_eq!(body.details, Some("down".to_string()));

    let (code, body) = health_failure("probe failed", "a");
    assert_eq!(code, 500);
    assert_eq!(body.status, "error");
    assert_eq!(body.details, Some("probe failed".to_string()));
}

#[test]
fn routes_under_a_prefix() {
    assert_eq!(route_paths(""), ("/".to_string(), "/health".to_string()));
    assert_eq!(
        route_paths("/api/agent"),
        ("/api/agent".to_string(), "/api/agent/health".to_string())
    );
}

#[test]
fn streamed_response_headers() {
    let headers = response_headers(&EventEncoder::sse());
    assert_eq!(
        headers,
        vec![
            ("Content-Type", "text/event-stream"),
            ("Cache-Control", "no-cache"),
            ("Connection", "keep-alive"),
        ]
    );
    assert_eq!(default_accept(), "text/event-stream");
}

#[test]
fn failures_in_words() {
    assert_eq!(escape_quotes("say \"hi\""), "say \\\"hi\\\"");
    assert_eq!(escape_quotes(""), "");
    assert_eq!(escape_quotes("世界\""), "世界\\\"");
    assert_eq!(
        fallback_error_frame("a \"b\""),
        "data: {\"type\":\"RUN_ERROR\",\"message\":\"a \\\"b\\\"\"}\n\n"
    );
    assert_eq!(
        encoding_failed_frame(),
        "data: {\"type\":\"RUN_ERROR\",\"message\":\"encoding failed\"}\n\n"
    );
    assert_eq!(error_body("bad \"x\""), "{\"error\":\"bad \\\"x\\\"\"}");

    let event = agent_error_event(&AgentError::Aborted { reason: "client disconnect".into() }, None);
    assert_eq!(event.message, "run aborted: client disconnect");
    assert_eq!(event.code, Some("ABORTED".to_string()));
    assert_eq!(event.base.timestamp, None);

    let stamp = 12.5f64.to_bits();
    let event = encode_error_event(
        &EncodeError::EventTooLarge { size: 2000000, max: 1048576 },
        Some(stamp),
    );
    assert_eq!(
        event.message,
        "encoding error: event exceeds max size: 2000000 bytes > 1048576 bytes limit"
    );
    assert_eq!(event.code, Some("ENCODING_ERROR".to_string()));
    assert_eq!(event.base.timestamp, Some(stamp));

    let bad = RequestFailure::InvalidBody { reason: "expected value".into() };
    assert_eq!(bad.status(), 400);
    assert_eq!(bad.message(), "invalid request body: expected value");
    let unread = RequestFailure::UnreadableBody { reason: "too long".into() };
    assert_eq!(unread.status(), 400);
    assert_eq!(unread.message(), "failed to read request body: too long");
    let failed = RequestFailure::AgentFailed { reason: "boom".into() };
    assert_eq!(failed.status(), 500);
    assert_eq!(failed.message(), "boom");
}

#[test]
fn stream_items_become_frames_or_error_events() {
    let sse = EventEncoder::sse();
    let frame = event_frame(&sse, EventType::RunStarted, Ok("{}".to_string()), None).unwrap();
    assert_eq!(&frame[..], b"data: {}\n\n");

    let failure = event_frame(
        &sse,
        EventType::StateSnapshot,
        Err("key must be a string".to_string()),
        Some(3),
    )
    .unwrap_err();
    assert_eq!(
        failure.message,
        "encoding error: JSON serialization failed for STATE_SNAPSHOT: key must be a string"
    );
    assert_eq!(failure.code, Some("ENCODING_ERROR".to_string()));
    assert_eq!(failure.base.timestamp, Some(3));

    let failure =
        event_frame(&sse, EventType::Raw, Ok("x".repeat(MAX_EVENT_SIZE + 1)), None).unwrap_err();
    assert_eq!(
        failure.message,
        "encoding error: event exceeds max size: 1048577 bytes > 1048576 bytes limit"
    );

    let proto = EventEncoder::proto();
    let failure = event_frame(&proto, EventType::Raw, Ok("{}".to_string()), None).unwrap_err();
    assert!(failure.message.starts_with("encoding error: unsupported content type: "));

    // The error event is framed like any event; where that fails, the hand-written frame goes out.
    let fallback = encoding_failed_frame().to_string();
    assert_eq!(
        &error_frame(&sse, Ok("{\"type\":\"RUN_ERROR\"}".to_string()), fallback.clone())[..],
        b"data: {\"type\":\"RUN_ERROR\"}\n\n"
    );
    assert_eq!(&error_frame(&sse, Err("no".to_string()), fallback.clone())[..], fallback.as_bytes());
    assert_eq!(
        &error_frame(&proto, Ok("{}".to_string()), fallback.clone())[..],
        fallback.as_bytes()
    );
}

#[test]
fn frames_split_lines_as_the_standard_library_does() {
    let samples = [
        "a\nb",
        "a\r\nb\r\n",
        "\n",
        "\n\n",
        "\r\n",
        "a\n\r\nb",
        "a\r\r\nb",
        "\ra\n",
        "x\ny\r",
        "{\n\t\"k\": \"v\"\n}\n",
        "世\n界",
        "a\nb\n\n",
    ];
    for text in samples {
        let mut expected = String::new();
        for line in text.lines() {
            expected.push_str("data: ");
            expected.push_str(line);
            expected.push('\n');
        }
        expected.push('\n');
        assert_eq!(&encode(text).unwrap()[..], expected.as_bytes(), "for {:?}", text);
    }
}

#[test]
fn header_names_are_matched_without_regard_to_case() {
    let headers = vec![
        ("Authorization".to_string(), "Bearer token".to_string()),
        ("X-Request-ID".to_string(), "req-123".to_string()),
        ("x-Trace-Id".to_string(), "trace-456".to_string()),
        ("USER-AGENT".to_string(), "test-client/1.0".to_string()),
        ("user-agent".to_string(), "second".to_string()),
        ("x-request-id-2".to_string(), "other".to_string()),
    ];
    let metadata = RequestMetadata::from_headers(&headers);
    assert_eq!(metadata.request_id, Some("req-123".to_string()));
    assert_eq!(metadata.trace_id, Some("trace-456".to_string()));
    assert_eq!(metadata.authorization(), Some("Bearer token"));
    assert_eq!(metadata.headers.get("user-agent"), Some("test-client/1.0"));

    // Only the letters of ASCII are folded.
    let headers = vec![("authorızation".to_string(), "x".to_string())];
    assert_eq!(RequestMetadata::from_headers(&headers).authorization(), None);
}

#[test]
fn error_codes_are_among_the_seven() {
    let codes = [
        "ABORTED",
        "PROTOCOL_VIOLATION",
        "STATE_ERROR",
        "ENCODING_ERROR",
        "TRANSPORT_ERROR",
        "CUSTOM_ERROR",
        "INTERNAL_ERROR",
    ];
    let event = encode_error_event(&EncodeError::json("RAW", "x".into()), None);
    assert!(codes.contains(&event.code.as_deref().unwrap()));
    assert_eq!(
        event.code,
        Some(error_code(&AgentError::Encoding(EncodeError::json("RAW", "x".into()))))
    );
    let event = agent_error_event(&AgentError::custom("x"), None);
    assert!(codes.contains(&event.code.as_deref().unwrap()));
}
