use ag_ui::event::{
    BaseEvent, Event, RunErrorEvent, RunFinishedEvent, RunStartedEvent, StepFinishedEvent,
    StepStartedEvent, TextMessageContentEvent, TextMessageEndEvent, TextMessageStartEvent,
    ThinkingEndEvent, ThinkingStartEvent, ThinkingTextMessageContentEvent,
    ThinkingTextMessageEndEvent, ThinkingTextMessageStartEvent, ToolCallArgsEvent,
    ToolCallEndEvent, ToolCallStartEvent,
};
use ag_ui::ids::{MessageId, RunId, ThreadId, ToolCallId};
use ag_ui::message::Role;
use ag_ui::verify::{EventVerifier, Violation};

fn base_event() -> BaseEvent {
    BaseEvent { timestamp: None, raw_event: None }
}

fn run_started_event() -> Event {
    Event::RunStarted(RunStartedEvent {
        base: base_event(),
        thread_id: ThreadId::new("test-thread"),
        run_id: RunId::new("test-run"),
    })
}

fn run_finished_event() -> Event {
    Event::RunFinished(RunFinishedEvent {
        base: base_event(),
        thread_id: ThreadId::new("test-thread"),
        run_id: RunId::new("test-run"),
        result: None,
    })
}

fn run_error_event() -> Event {
    Event::RunError(RunErrorEvent {
        base: base_event(),
        message: "Test error".to_string(),
        code: None,
    })
}

fn text_message_start_event(message_id: &str) -> Event {
    Event::TextMessageStart(TextMessageStartEvent {
        base: base_event(),
        message_id: MessageId::new(message_id),
        role: Role::Assistant,
    })
}

fn text_message_content_event(message_id: &str) -> Event {
    Event::TextMessageContent(TextMessageContentEvent {
        base: base_event(),
        message_id: MessageId::new(message_id),
        delta: "Hello".to_string(),
    })
}

fn text_message_end_event(message_id: &str) -> Event {
    Event::TextMessageEnd(TextMessageEndEvent {
        base: base_event(),
        message_id: MessageId::new(message_id),
    })
}

fn tool_call_start_event(tool_call_id: &str) -> Event {
    Event::ToolCallStart(ToolCallStartEvent {
        base: base_event(),
        tool_call_id: ToolCallId::new(tool_call_id),
        tool_call_name: "test_tool".to_string(),
        parent_message_id: None,
    })
}

fn tool_call_args_event(tool_call_id: &str) -> Event {
    Event::ToolCallArgs(ToolCallArgsEvent {
        base: base_event(),
        tool_call_id: ToolCallId::new(tool_call_id),
        delta: r#"{"arg": "value"}"#.to_string(),
    })
}

fn tool_call_end_event(tool_call_id: &str) -> Event {
    Event::ToolCallEnd(ToolCallEndEvent {
        base: base_event(),
        tool_call_id: ToolCallId::new(tool_call_id),
    })
}

fn step_started_event(step_name: &str) -> Event {
    Event::StepStarted(StepStartedEvent { base: base_event(), step_name: step_name.to_string() })
}

fn step_finished_event(step_name: &str) -> Event {
    Event::StepFinished(StepFinishedEvent { base: base_event(), step_name: step_name.to_string() })
}

fn thinking_start_event() -> Event {
    Event::ThinkingStart(ThinkingStartEvent { base: base_event(), title: None })
}

fn thinking_end_event() -> Event {
    Event::ThinkingEnd(ThinkingEndEvent { base: base_event() })
}

fn thinking_message_start_event() -> Event {
    Event::ThinkingTextMessageStart(ThinkingTextMessageStartEvent { base: base_event() })
}

fn thinking_message_content_event() -> Event {
    Event::ThinkingTextMessageContent(ThinkingTextMessageContentEvent {
        base: base_event(),
        delta: "Thinking...".to_string(),
    })
}

fn thinking_message_end_event() -> Event {
    Event::ThinkingTextMessageEnd(ThinkingTextMessageEndEvent { base: base_event() })
}

#[test]
fn test_first_event_must_be_run_started() {
    let mut verifier = EventVerifier::new();

    // Non-RUN_STARTED event should fail
    let result = verifier.verify(&text_message_start_event("msg1"));
    assert!(result.is_err());
    assert!(result.unwrap_err().to_string().contains("First event must be 'RUN_STARTED'"));
}

#[test]
fn test_first_event_can_be_run_error() {
    let mut verifier = EventVerifier::new();

    // RUN_ERROR can be first event
    let result = verifier.verify(&run_error_event());
    assert!(result.is_ok());
}

#[test]
fn test_cannot_start_run_while_run_active() {
    let mut verifier = EventVerifier::new();

    verifier.verify(&run_started_event()).expect("valid event rejected");

    // Second RUN_STARTED should fail
    let result = verifier.verify(&run_started_event());
    assert!(result.is_err());
    assert!(result.unwrap_err().to_string().contains("Cannot send 'RUN_STARTED' while a run is still active"));
}

#[test]
fn test_text_message_flow() {
    let mut verifier = EventVerifier::new();

    verifier.verify(&run_started_event()).expect("valid event rejected");
    verifier.verify(&text_message_start_event("msg1")).expect("valid event rejected");
    verifier.verify(&text_message_content_event("msg1")).expect("valid event rejected");
    verifier.verify(&text_message_end_event("msg1")).expect("valid event rejected");
    verifier.verify(&run_finished_event()).expect("valid event rejected");
}

#[test]
fn test_cannot_send_content_without_start() {
    let mut verifier = EventVerifier::new();

    verifier.verify(&run_started_event()).expect("valid event rejected");

    let result = verifier.verify(&text_message_content_event("msg1"));
    assert!(result.is_err());
    assert!(result.unwrap_err().to_string().contains("No active text message found"));
}

#[test]
fn test_cannot_send_end_without_start() {
    let mut verifier = EventVerifier::new();

    verifier.verify(&run_started_event()).expect("valid event rejected");

    let result = verifier.verify(&text_message_end_event("msg1"));
    assert!(result.is_err());
    assert!(result.unwrap_err().to_string().contains("No active text message found"));
}

#[test]
fn test_tool_call_flow() {
    let mut verifier = EventVerifier::new();

    verifier.verify(&run_started_event()).expect("valid event rejected");
    verifier.verify(&tool_call_start_event("tc1")).expect("valid event rejected");
    verifier.verify(&tool_call_args_event("tc1")).expect("valid event rejected");
    verifier.verify(&tool_call_end_event("tc1")).expect("valid event rejected");
    verifier.verify(&run_finished_event()).expect("valid event rejected");
}

#[test]
fn test_cannot_send_args_without_start() {
    let mut verifier = EventVerifier::new();

    verifier.verify(&run_started_event()).expect("valid event rejected");

    let result = verifier.verify(&tool_call_args_event("tc1"));
    assert!(result.is_err());
    assert!(result.unwrap_err().to_string().contains("No active tool call found"));
}

#[test]
fn test_run_finished_requires_all_streams_closed() {
    let mut verifier = EventVerifier::new();

    verifier.verify(&run_started_event()).expect("valid event rejected");
    verifier.verify(&text_message_start_event("msg1")).expect("valid event rejected");

    // Should fail because message is still active
    let result = verifier.verify(&run_finished_event());
    assert!(result.is_err());
    assert!(result.unwrap_err().to_string().contains("text messages are still active"));
}

#[test]
fn test_run_error_blocks_further_events() {
    let mut verifier = EventVerifier::new();

    verifier.verify(&run_started_event()).expect("valid event rejected");
    verifier.verify(&run_error_event()).expect("valid event rejected");

    // Any event after RUN_ERROR should fail
    let result = verifier.verify(&text_message_start_event("msg1"));
    assert!(result.is_err());
    assert!(result.unwrap_err().to_string().contains("already errored with 'RUN_ERROR'"));
}

#[test]
fn test_new_run_started_after_run_finished_resets_state() {
    let mut verifier = EventVerifier::new();

    // First run
    verifier.verify(&run_started_event()).expect("valid event rejected");
    verifier.verify(&run_finished_event()).expect("valid event rejected");

    // Second run - should reset state
    verifier.verify(&run_started_event()).expect("valid event rejected");
    verifier.verify(&text_message_start_event("msg1")).expect("valid event rejected");
    verifier.verify(&text_message_end_event("msg1")).expect("valid event rejected");
    verifier.verify(&run_finished_event()).expect("valid event rejected");
}

#[test]
fn test_step_started_finished_tracking() {
    let mut verifier = EventVerifier::new();

    verifier.verify(&run_started_event()).expect("valid event rejected");
    verifier.verify(&step_started_event("step1")).expect("valid event rejected");
    verifier.verify(&step_finished_event("step1")).expect("valid event rejected");
    verifier.verify(&run_finished_event()).expect("valid event rejected");
}

#[test]
fn test_step_finished_without_start() {
    let mut verifier = EventVerifier::new();

    verifier.verify(&run_started_event()).expect("valid event rejected");

    let result = verifier.verify(&step_finished_event("step1"));
    assert!(result.is_err());
    assert!(result.unwrap_err().to_string().contains("was not started"));
}

#[test]
fn test_thinking_flow_validation() {
    let mut verifier = EventVerifier::new();

    verifier.verify(&run_started_event()).expect("valid event rejected");
    verifier.verify(&thinking_start_event()).expect("valid event rejected");
    verifier.verify(&thinking_message_start_event()).expect("valid event rejected");
    verifier.verify(&thinking_message_content_event()).expect("valid event rejected");
    verifier.verify(&thinking_message_end_event()).expect("valid event rejected");
    verifier.verify(&thinking_end_event()).expect("valid event rejected");
    verifier.verify(&run_finished_event()).expect("valid event rejected");
}

#[test]
fn test_thinking_message_requires_thinking_step() {
    let mut verifier = EventVerifier::new();

    verifier.verify(&run_started_event()).expect("valid event rejected");

    // Should fail because no thinking step is active
    let result = verifier.verify(&thinking_message_start_event());
    assert!(result.is_err());
    assert!(result.unwrap_err().to_string().contains("thinking step is not in progress"));
}

#[test]
fn test_cannot_finish_run_with_active_steps() {
    let mut verifier = EventVerifier::new();

    verifier.verify(&run_started_event()).expect("valid event rejected");
    verifier.verify(&step_started_event("step1")).expect("valid event rejected");

    let result = verifier.verify(&run_finished_event());
    assert!(result.is_err());
    assert!(result.unwrap_err().to_string().contains("steps are still active"));
}

#[test]
fn test_cannot_finish_run_with_active_tool_calls() {
    let mut verifier = EventVerifier::new();

    verifier.verify(&run_started_event()).expect("valid event rejected");
    verifier.verify(&tool_call_start_event("tc1")).expect("valid event rejected");

    let result = verifier.verify(&run_finished_event());
    assert!(result.is_err());
    assert!(result.unwrap_err().to_string().contains("tool calls are still active"));
}

#[test]
fn test_multiple_concurrent_messages() {
    let mut verifier = EventVerifier::new();

    verifier.verify(&run_started_event()).expect("valid event rejected");
    verifier.verify(&text_message_start_event("msg1")).expect("valid event rejected");
    verifier.verify(&text_message_start_event("msg2")).expect("valid event rejected");
    verifier.verify(&text_message_content_event("msg1")).expect("valid event rejected");
    verifier.verify(&text_message_content_event("msg2")).expect("valid event rejected");
    verifier.verify(&text_message_end_event("msg1")).expect("valid event rejected");
    verifier.verify(&text_message_end_event("msg2")).expect("valid event rejected");
    verifier.verify(&run_finished_event()).expect("valid event rejected");
}

#[test]
fn test_cannot_start_duplicate_message() {
    let mut verifier = EventVerifier::new();

    verifier.verify(&run_started_event()).expect("valid event rejected");
    verifier.verify(&text_message_start_event("msg1")).expect("valid event rejected");

    let result = verifier.verify(&text_message_start_event("msg1"));
    assert!(result.is_err());
    assert!(result.unwrap_err().to_string().contains("already in progress"));
}

#[test]
fn test_cannot_send_after_run_finished() {
    let mut verifier = EventVerifier::new();

    verifier.verify(&run_started_event()).expect("valid event rejected");
    verifier.verify(&run_finished_event()).expect("valid event rejected");

    let result = verifier.verify(&text_message_start_event("msg1"));
    assert!(result.is_err());
    assert!(result.unwrap_err().to_string().contains("already finished with 'RUN_FINISHED'"));
}

#[test]
fn rejection_names_the_rule_and_the_event() {
    let mut verifier = EventVerifier::new();
    verifier.verify(&run_started_event()).expect("valid event rejected");
    let err = verifier.verify(&text_message_content_event("m1")).unwrap_err();
    assert_eq!(err.violation, Violation::ContentWithoutMessage);
    assert_eq!(
        err.to_string(),
        "Cannot send 'TEXT_MESSAGE_CONTENT' event: No active text message found with ID 'm1'. Start a text message with 'TEXT_MESSAGE_START' first."
    );
    assert!(err.to_string().to_lowercase().contains("no active text message"));
}

#[test]
fn rejection_after_error_names_the_event_kind() {
    let mut verifier = EventVerifier::new();
    verifier.verify(&run_error_event()).expect("valid event rejected");
    let err = verifier.verify(&step_started_event("s")).unwrap_err();
    assert_eq!(err.violation, Violation::RunErrored);
    assert_eq!(
        err.to_string(),
        "Cannot send event type 'StepStarted': The run has already errored with 'RUN_ERROR'. No further events can be sent."
    );
}

#[test]
fn unfinished_steps_are_listed_in_order() {
    let mut verifier = EventVerifier::new();
    verifier.verify(&run_started_event()).expect("valid event rejected");
    verifier.verify(&step_started_event("b")).expect("valid event rejected");
    verifier.verify(&step_started_event("a")).expect("valid event rejected");
    let err = verifier.verify(&run_finished_event()).unwrap_err();
    assert_eq!(err.violation, Violation::UnfinishedSteps);
    assert_eq!(
        err.to_string(),
        "Cannot send 'RUN_FINISHED' while steps are still active: [\"b\", \"a\"]"
    );
}

#[test]
fn duplicate_step_is_rejected() {
    let mut verifier = EventVerifier::new();
    verifier.verify(&run_started_event()).expect("valid event rejected");
    verifier.verify(&step_started_event("plan")).expect("valid event rejected");
    let err = verifier.verify(&step_started_event("plan")).unwrap_err();
    assert_eq!(err.violation, Violation::StepActive);
    assert_eq!(err.to_string(), "Step \"plan\" is already active for 'STEP_STARTED'");
}

#[test]
fn every_thinking_rule_is_enforced() {
    let mut verifier = EventVerifier::new();
    verifier.verify(&run_started_event()).expect("valid event rejected");
    assert_eq!(
        verifier.verify(&thinking_end_event()).unwrap_err().violation,
        Violation::EndWithoutThinking
    );
    verifier.verify(&thinking_start_event()).expect("valid event rejected");
    assert_eq!(
        verifier.verify(&thinking_start_event()).unwrap_err().violation,
        Violation::ThinkingActive
    );
    assert_eq!(
        verifier.verify(&thinking_message_content_event()).unwrap_err().violation,
        Violation::ContentWithoutThinkingMessage
    );
    assert_eq!(
        verifier.verify(&thinking_message_end_event()).unwrap_err().violation,
        Violation::EndWithoutThinkingMessage
    );
    verifier.verify(&thinking_message_start_event()).expect("valid event rejected");
    assert_eq!(
        verifier.verify(&thinking_message_start_event()).unwrap_err().violation,
        Violation::ThinkingMessageActive
    );
}

#[test]
fn tool_call_rules_are_enforced() {
    let mut verifier = EventVerifier::new();
    verifier.verify(&run_started_event()).expect("valid event rejected");
    assert_eq!(
        verifier.verify(&tool_call_end_event("tc1")).unwrap_err().violation,
        Violation::EndWithoutToolCall
    );
    verifier.verify(&tool_call_start_event("tc1")).expect("valid event rejected");
    assert_eq!(
        verifier.verify(&tool_call_start_event("tc1")).unwrap_err().violation,
        Violation::ToolCallActive
    );
}

#[test]
fn verify_stream_stops_at_the_first_violation() {
    let mut verifier = EventVerifier::new();
    let events = vec![
        run_started_event(),
        text_message_start_event("m1"),
        text_message_content_event("m2"),
        text_message_end_event("m1"),
    ];
    let (at, err) = verifier.verify_stream(&events).unwrap_err();
    assert_eq!(at, 2);
    assert_eq!(err.violation, Violation::ContentWithoutMessage);
    // The message that was open stays open.
    verifier.verify(&text_message_end_event("m1")).expect("valid event rejected");
}

#[test]
fn verify_stream_accepts_a_balanced_transcript() {
    let mut verifier = EventVerifier::new();
    let events = vec![
        run_started_event(),
        step_started_event("s"),
        step_finished_event("s"),
        text_message_start_event("m1"),
        text_message_content_event("m1"),
        text_message_end_event("m1"),
        tool_call_start_event("tc"),
        tool_call_args_event("tc"),
        tool_call_end_event("tc"),
        thinking_start_event(),
        thinking_message_start_event(),
        thinking_message_content_event(),
        thinking_message_end_event(),
        thinking_end_event(),
        run_finished_event(),
    ];
    assert!(verifier.verify_stream(&events).is_ok());
}

#[test]
fn failed_first_event_still_counts_as_first() {
    let mut verifier = EventVerifier::new();
    assert_eq!(
        verifier.verify(&text_message_start_event("m")).unwrap_err().violation,
        Violation::FirstEvent
    );
    // The run was never started, so a run start is accepted now.
    verifier.verify(&run_started_event()).expect("valid event rejected");
}

#[test]
fn debug_mode_changes_nothing() {
    let mut verifier = EventVerifier::new().with_debug(true);
    assert!(verifier.debug());
    verifier.verify(&run_started_event()).expect("valid event rejected");
    verifier.verify(&run_finished_event()).expect("valid event rejected");
}

#[test]
fn thinking_messages_need_an_active_thinking_step() {
    let mut verifier = EventVerifier::new();
    verifier.verify(&run_started_event()).expect("valid event rejected");
    verifier.verify(&thinking_start_event()).expect("valid event rejected");
    verifier.verify(&thinking_message_start_event()).expect("valid event rejected");
    verifier.verify(&thinking_end_event()).expect("valid event rejected");

    // The thinking step is over: neither content nor end of a thinking message may follow.
    let err = verifier.verify(&thinking_message_content_event()).unwrap_err();
    assert_eq!(err.violation, Violation::ThinkingContentOutsideThinking);
    assert_eq!(
        err.to_string(),
        "Cannot send 'THINKING_TEXT_MESSAGE_CONTENT' event: A thinking step is not in progress. Create one with 'THINKING_START' first."
    );
    let err = verifier.verify(&thinking_message_end_event()).unwrap_err();
    assert_eq!(err.violation, Violation::ThinkingEndOutsideThinking);
    assert_eq!(
        err.to_string(),
        "Cannot send 'THINKING_TEXT_MESSAGE_END' event: A thinking step is not in progress. Create one with 'THINKING_START' first."
    );
    let err = verifier.verify(&thinking_message_start_event()).unwrap_err();
    assert_eq!(err.violation, Violation::ThinkingMessageOutsideThinking);

    // Before any thinking step the same holds.
    let mut fresh = EventVerifier::new();
    fresh.verify(&run_started_event()).expect("valid event rejected");
    assert_eq!(
        fresh.verify(&thinking_message_content_event()).unwrap_err().violation,
        Violation::ThinkingContentOutsideThinking
    );
}

#[test]
fn an_ended_id_may_start_again() {
    let mut verifier = EventVerifier::new();
    verifier.verify(&run_started_event()).expect("valid event rejected");
    verifier.verify(&text_message_start_event("m1")).expect("valid event rejected");
    verifier.verify(&text_message_end_event("m1")).expect("valid event rejected");
    assert_eq!(
        verifier.verify(&text_message_content_event("m1")).unwrap_err().violation,
        Violation::ContentWithoutMessage
    );
    verifier.verify(&text_message_start_event("m1")).expect("valid event rejected");
    verifier.verify(&text_message_end_event("m1")).expect("valid event rejected");
    verifier.verify(&run_finished_event()).expect("valid event rejected");
}
