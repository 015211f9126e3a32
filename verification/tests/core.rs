use ag_ui::agent::RunAgentInput;
use ag_ui::event::{
    BaseEvent, Event, EventType, EventValidationError, RunStartedEvent, TextMessageContentEvent,
    TextMessageStartEvent,
};
use ag_ui::ids::{MessageId, RunId, ThreadId, ToolCallId};
use ag_ui::message::{
    AssistantMessage, Context, DeveloperMessage, FunctionCall, Message, Role, SystemMessage, Tool,
    ToolCall, ToolMessage, UserMessage,
};
use ag_ui::error::AguiError;

fn object(text: &str) -> serde_json::Value {
    serde_json::from_str(text).expect("valid JSON")
}

#[test]
fn test_message_types() {
    let dev_msg = DeveloperMessage::new(MessageId::new("dev1"), "dev content".to_string())
        .with_name("dev".to_string());
    assert_eq!(dev_msg.role, Role::Developer);
    assert_eq!(dev_msg.name, Some("dev".to_string()));

    let sys_msg = SystemMessage::new(MessageId::new("sys1"), "sys content".to_string())
        .with_name("sys".to_string());
    assert_eq!(sys_msg.role, Role::System);

    let user_msg = UserMessage::new(MessageId::new("user1"), "user content".to_string())
        .with_name("user".to_string());
    assert_eq!(user_msg.role, Role::User);

    let tool_msg = ToolMessage::new(
        MessageId::new("tool1"),
        "result".to_string(),
        ToolCallId::new("call_id"),
    )
    .with_error("error".to_string());
    assert_eq!(tool_msg.role, Role::Tool);
    assert_eq!(tool_msg.error, Some("error".to_string()));
}

#[test]
fn test_tool_call_creation() {
    let function_call = FunctionCall {
        name: "test_function".to_string(),
        arguments: "{}".to_string(),
    };

    let tool_call = ToolCall::new(ToolCallId::new("call_123"), function_call);
    assert_eq!(tool_call.call_type, "function");
}

#[test]
fn test_assistant_message_builder() {
    let msg = AssistantMessage::new(MessageId::new("123"))
        .with_content("Hello".to_string())
        .with_name("Assistant".to_string());

    assert_eq!(msg.content, Some("Hello".to_string()));
    assert_eq!(msg.name, Some("Assistant".to_string()));
}

#[test]
fn test_context_and_tool() {
    let context = Context::new("test desc".to_string(), "test value".to_string());
    assert_eq!(context.description, "test desc");

    let tool = Tool::new(
        "test_tool".to_string(),
        "tool desc".to_string(),
        object(r#"{"type": "object"}"#),
    );
    assert_eq!(tool.name, "test_tool");
}

#[test]
fn test_run_agent_input() {
    let input = RunAgentInput::new(
        ThreadId::new("thread1"),
        RunId::new("run1"),
        object("{}"),
        vec![],
        vec![],
        vec![],
        object("{}"),
    );

    assert_eq!(input.thread_id.to_string(), "thread1");
    assert_eq!(input.run_id.to_string(), "run1");
}

#[test]
fn test_agui_error() {
    let error = AguiError::new("test error");
    assert_eq!(error.to_string(), "AG-UI Error: test error");
}

#[test]
fn message_new_by_role() {
    let id = MessageId::new("m");
    let user = Message::new(Role::User, id.clone(), "hi".to_string());
    assert_eq!(user.role(), Role::User);
    assert_eq!(user.content(), Some("hi"));
    assert_eq!(user.id(), &id);
    assert!(user.tool_calls().is_none());

    let assistant = Message::new(Role::Assistant, id.clone(), "ignored".to_string());
    assert_eq!(assistant.role(), Role::Assistant);
    assert_eq!(assistant.content(), None);

    let tool = Message::new(Role::Tool, id.clone(), "out".to_string());
    match tool {
        Message::Tool { tool_call_id, error, content, .. } => {
            assert!(tool_call_id.as_str().starts_with("call_"));
            assert!(error.is_none());
            assert_eq!(content, "out");
        }
        other => panic!("expected a tool message, got {:?}", other),
    }
    assert_eq!(Message::new(Role::System, id.clone(), "s".to_string()).role(), Role::System);
    assert_eq!(
        Message::new(Role::Developer, id, "d".to_string()).role(),
        Role::Developer
    );
}

#[test]
fn content_mut_initialises_assistant_text() {
    let mut m = Message::new(Role::Assistant, MessageId::new("m"), String::new());
    assert_eq!(m.content(), None);
    m.content_mut().expect("every message hands out its text").push_str("abc");
    assert_eq!(m.content(), Some("abc"));

    let mut u = Message::new(Role::User, MessageId::new("u"), "x".to_string());
    u.content_mut().unwrap().push('y');
    assert_eq!(u.content(), Some("xy"));
}

#[test]
fn tool_calls_mut_only_on_assistant() {
    let mut m = Message::new(Role::Assistant, MessageId::new("m"), String::new());
    assert!(m.tool_calls().is_none());
    let call = ToolCall::new(
        ToolCallId::new("tc"),
        FunctionCall { name: "f".to_string(), arguments: String::new() },
    );
    m.tool_calls_mut().expect("assistant has tool calls").push(call.clone());
    assert_eq!(m.tool_calls().map(|c| c.len()), Some(1));
    assert_eq!(m.tool_calls().unwrap()[0], call);

    let mut u = Message::new(Role::User, MessageId::new("u"), "x".to_string());
    assert!(u.tool_calls_mut().is_none());
    assert_eq!(u.content(), Some("x"));
}

#[test]
fn id_mut_changes_only_the_id() {
    let mut m = Message::new(Role::User, MessageId::new("a"), "x".to_string());
    *m.id_mut() = MessageId::new("b");
    assert_eq!(m.id(), &MessageId::new("b"));
    assert_eq!(m.content(), Some("x"));
    assert_eq!(m.role(), Role::User);
}

#[test]
fn message_clone_is_equal() {
    let m = Message::Assistant {
        id: MessageId::new("a"),
        content: Some("text".to_string()),
        name: Some("n".to_string()),
        tool_calls: Some(vec![ToolCall::new(
            ToolCallId::new("tc"),
            FunctionCall { name: "f".to_string(), arguments: "{}".to_string() },
        )]),
    };
    assert_eq!(m.clone(), m);
}

#[test]
fn role_defaults() {
    assert_eq!(Role::developer(), Role::Developer);
    assert_eq!(Role::system(), Role::System);
    assert_eq!(Role::assistant(), Role::Assistant);
    assert_eq!(Role::user(), Role::User);
    assert_eq!(Role::tool(), Role::Tool);
}

#[test]
fn empty_delta_is_rejected() {
    let r = TextMessageContentEvent::new(MessageId::new("m"), String::new());
    assert_eq!(r.unwrap_err(), EventValidationError::EmptyDelta);

    let ok = TextMessageContentEvent::new(MessageId::new("m"), "x".to_string()).unwrap();
    assert_eq!(ok.delta, "x");
    assert!(ok.validate().is_ok());
    assert_eq!(ok.base, BaseEvent { timestamp: None, raw_event: None });
}

#[test]
fn event_builders_and_accessors() {
    let stamp = 1234567890.123f64;
    let start = TextMessageStartEvent::new(MessageId::new("m"))
        .with_timestamp(stamp.to_bits())
        .with_raw_event(object(r#"{"k":1}"#));
    assert_eq!(start.role, Role::Assistant);
    let event = Event::TextMessageStart(start);
    assert_eq!(event.event_type(), EventType::TextMessageStart);
    assert_eq!(event.timestamp().map(f64::from_bits), Some(stamp));

    let content = TextMessageContentEvent::new(MessageId::new("m"), "d".to_string())
        .unwrap()
        .with_timestamp(7.5f64.to_bits());
    assert_eq!(Event::TextMessageContent(content).timestamp().map(f64::from_bits), Some(7.5));

    let run = Event::RunStarted(RunStartedEvent {
        base: BaseEvent::empty(),
        thread_id: ThreadId::new("t"),
        run_id: RunId::new("r"),
    });
    assert_eq!(run.event_type(), EventType::RunStarted);
    assert_eq!(run.timestamp(), None);
}
