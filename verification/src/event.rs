//! The event model: the 24 kinds of event that an agent streams, and the
//! fields common to all of them.

use vstd::prelude::*;
use crate::ids::{MessageId, RunId, ThreadId, ToolCallId};
use crate::json::JsonValue;
use crate::message::{Message, Role};

verus! {

/// The kind of an event. On the wire it is the `type` field, in upper snake
/// case.
#[derive(Debug, Clone, Copy, PartialEq, Eq, Structural)]
pub enum EventType {
    TextMessageStart,
    TextMessageContent,
    TextMessageEnd,
    TextMessageChunk,
    ThinkingTextMessageStart,
    ThinkingTextMessageContent,
    ThinkingTextMessageEnd,
    ToolCallStart,
    ToolCallArgs,
    ToolCallEnd,
    ToolCallChunk,
    ToolCallResult,
    ThinkingStart,
    ThinkingEnd,
    StateSnapshot,
    StateDelta,
    MessagesSnapshot,
    Raw,
    Custom,
    RunStarted,
    RunFinished,
    RunError,
    StepStarted,
    StepFinished,
}

/// The fields that every event may carry.
#[derive(Debug, Clone, PartialEq)]
pub struct BaseEvent {
    /// When the event was made: seconds since the epoch, a double-precision
    /// number held as its IEEE 754 bit pattern.
    pub timestamp: Option<u64>,
    /// The event of the underlying system that this one was made from.
    pub raw_event: Option<JsonValue>,
}

impl BaseEvent {
    /// No timestamp and no raw event.
    pub fn empty() -> (r: Self)
        ensures
            r.timestamp.is_none(),
            r.raw_event.is_none(),
    {
        BaseEvent { timestamp: None, raw_event: None }
    }
}

/// Text message start: an assistant message begins to stream.
#[derive(Debug, Clone, PartialEq)]
pub struct TextMessageStartEvent {
    pub base: BaseEvent,
    pub message_id: MessageId,
    pub role: Role,
}

/// Text message content: a piece of text to append. The piece is not empty.
#[derive(Debug, Clone, PartialEq)]
pub struct TextMessageContentEvent {
    pub base: BaseEvent,
    pub message_id: MessageId,
    pub delta: String,
}

/// Text message end: the message is complete.
#[derive(Debug, Clone, PartialEq)]
pub struct TextMessageEndEvent {
    pub base: BaseEvent,
    pub message_id: MessageId,
}

/// Text message chunk: start, content and end in one, every field optional.
#[derive(Debug, Clone, PartialEq)]
pub struct TextMessageChunkEvent {
    pub base: BaseEvent,
    pub message_id: Option<MessageId>,
    pub role: Option<Role>,
    pub delta: Option<String>,
}

/// Thinking text message start.
#[derive(Debug, Clone, PartialEq)]
pub struct ThinkingTextMessageStartEvent {
    pub base: BaseEvent,
}

/// Thinking text message content.
#[derive(Debug, Clone, PartialEq)]
pub struct ThinkingTextMessageContentEvent {
    pub base: BaseEvent,
    pub delta: String,
}

/// Thinking text message end.
#[derive(Debug, Clone, PartialEq)]
pub struct ThinkingTextMessageEndEvent {
    pub base: BaseEvent,
}

/// Tool call start: the assistant begins to call a tool.
#[derive(Debug, Clone, PartialEq)]
pub struct ToolCallStartEvent {
    pub base: BaseEvent,
    pub tool_call_id: ToolCallId,
    pub tool_call_name: String,
    pub parent_message_id: Option<MessageId>,
}

/// Tool call arguments: a piece of the JSON text of the arguments.
#[derive(Debug, Clone, PartialEq)]
pub struct ToolCallArgsEvent {
    pub base: BaseEvent,
    pub tool_call_id: ToolCallId,
    pub delta: String,
}

/// Tool call end: the arguments are complete.
#[derive(Debug, Clone, PartialEq)]
pub struct ToolCallEndEvent {
    pub base: BaseEvent,
    pub tool_call_id: ToolCallId,
}

/// Tool call chunk: start, arguments and end in one, every field optional.
#[derive(Debug, Clone, PartialEq)]
pub struct ToolCallChunkEvent {
    pub base: BaseEvent,
    pub tool_call_id: Option<ToolCallId>,
    pub tool_call_name: Option<String>,
    pub parent_message_id: Option<MessageId>,
    pub delta: Option<String>,
}

/// Tool call result: what the tool gave back.
#[derive(Debug, Clone, PartialEq)]
pub struct ToolCallResultEvent {
    pub base: BaseEvent,
    pub message_id: MessageId,
    pub tool_call_id: ToolCallId,
    pub content: String,
    pub role: Role,
}

/// Thinking start: the agent begins a thinking step.
#[derive(Debug, Clone, PartialEq)]
pub struct ThinkingStartEvent {
    pub base: BaseEvent,
    pub title: Option<String>,
}

/// Thinking end.
#[derive(Debug, Clone, PartialEq)]
pub struct ThinkingEndEvent {
    pub base: BaseEvent,
}

/// State snapshot: the whole state, to replace the current one.
#[derive(Debug, Clone, PartialEq)]
pub struct StateSnapshotEvent {
    pub base: BaseEvent,
    pub snapshot: JsonValue,
}

/// State delta: a JSON Patch (RFC 6902) to apply to the current state.
#[derive(Debug, Clone, PartialEq)]
pub struct StateDeltaEvent {
    pub base: BaseEvent,
    pub delta: Vec<JsonValue>,
}

/// Messages snapshot: the whole conversation.
#[derive(Debug, Clone, PartialEq)]
pub struct MessagesSnapshotEvent {
    pub base: BaseEvent,
    pub messages: Vec<Message>,
}

/// Raw event of an underlying system, passed through.
#[derive(Debug, Clone, PartialEq)]
pub struct RawEvent {
    pub base: BaseEvent,
    pub event: JsonValue,
    pub source: Option<String>,
}

/// Custom event, named by the application.
#[derive(Debug, Clone, PartialEq)]
pub struct CustomEvent {
    pub base: BaseEvent,
    pub name: String,
    pub value: JsonValue,
}

/// Run started.
#[derive(Debug, Clone, PartialEq)]
pub struct RunStartedEvent {
    pub base: BaseEvent,
    pub thread_id: ThreadId,
    pub run_id: RunId,
}

/// Run finished, with its result if it has one.
#[derive(Debug, Clone, PartialEq)]
pub struct RunFinishedEvent {
    pub base: BaseEvent,
    pub thread_id: ThreadId,
    pub run_id: RunId,
    pub result: Option<JsonValue>,
}

/// Run error: the run failed; nothing may follow.
#[derive(Debug, Clone, PartialEq)]
pub struct RunErrorEvent {
    pub base: BaseEvent,
    pub message: String,
    pub code: Option<String>,
}

/// Step started.
#[derive(Debug, Clone, PartialEq)]
pub struct StepStartedEvent {
    pub base: BaseEvent,
    pub step_name: String,
}

/// Step finished.
#[derive(Debug, Clone, PartialEq)]
pub struct StepFinishedEvent {
    pub base: BaseEvent,
    pub step_name: String,
}

/// An event of the stream.
#[derive(Debug, Clone, PartialEq)]
pub enum Event {
    TextMessageStart(TextMessageStartEvent),
    TextMessageContent(TextMessageContentEvent),
    TextMessageEnd(TextMessageEndEvent),
    TextMessageChunk(TextMessageChunkEvent),
    ThinkingTextMessageStart(ThinkingTextMessageStartEvent),
    ThinkingTextMessageContent(ThinkingTextMessageContentEvent),
    ThinkingTextMessageEnd(ThinkingTextMessageEndEvent),
    ToolCallStart(ToolCallStartEvent),
    ToolCallArgs(ToolCallArgsEvent),
    ToolCallEnd(ToolCallEndEvent),
    ToolCallChunk(ToolCallChunkEvent),
    ToolCallResult(ToolCallResultEvent),
    ThinkingStart(ThinkingStartEvent),
    ThinkingEnd(ThinkingEndEvent),
    StateSnapshot(StateSnapshotEvent),
    StateDelta(StateDeltaEvent),
    MessagesSnapshot(MessagesSnapshotEvent),
    Raw(RawEvent),
    Custom(CustomEvent),
    RunStarted(RunStartedEvent),
    RunFinished(RunFinishedEvent),
    RunError(RunErrorEvent),
    StepStarted(StepStartedEvent),
    StepFinished(StepFinishedEvent),
}

impl Event {
    /// The kind of the event, in specifications.
    pub open spec fn spec_event_type(&self) -> EventType {
        match *self {
            Event::TextMessageStart(_) => EventType::TextMessageStart,
            Event::TextMessageContent(_) => EventType::TextMessageContent,
            Event::TextMessageEnd(_) => EventType::TextMessageEnd,
            Event::TextMessageChunk(_) => EventType::TextMessageChunk,
            Event::ThinkingTextMessageStart(_) => EventType::ThinkingTextMessageStart,
            Event::ThinkingTextMessageContent(_) => EventType::ThinkingTextMessageContent,
            Event::ThinkingTextMessageEnd(_) => EventType::ThinkingTextMessageEnd,
            Event::ToolCallStart(_) => EventType::ToolCallStart,
            Event::ToolCallArgs(_) => EventType::ToolCallArgs,
            Event::ToolCallEnd(_) => EventType::ToolCallEnd,
            Event::ToolCallChunk(_) => EventType::ToolCallChunk,
            Event::ToolCallResult(_) => EventType::ToolCallResult,
            Event::ThinkingStart(_) => EventType::ThinkingStart,
            Event::ThinkingEnd(_) => EventType::ThinkingEnd,
            Event::StateSnapshot(_) => EventType::StateSnapshot,
            Event::StateDelta(_) => EventType::StateDelta,
            Event::MessagesSnapshot(_) => EventType::MessagesSnapshot,
            Event::Raw(_) => EventType::Raw,
            Event::Custom(_) => EventType::Custom,
            Event::RunStarted(_) => EventType::RunStarted,
            Event::RunFinished(_) => EventType::RunFinished,
            Event::RunError(_) => EventType::RunError,
            Event::StepStarted(_) => EventType::StepStarted,
            Event::StepFinished(_) => EventType::StepFinished,
        }
    }

    /// The common fields of the event, in specifications.
    pub open spec fn spec_base(&self) -> BaseEvent {
        match *self {
            Event::TextMessageStart(e) => e.base,
            Event::TextMessageContent(e) => e.base,
            Event::TextMessageEnd(e) => e.base,
            Event::TextMessageChunk(e) => e.base,
            Event::ThinkingTextMessageStart(e) => e.base,
            Event::ThinkingTextMessageContent(e) => e.base,
            Event::ThinkingTextMessageEnd(e) => e.base,
            Event::ToolCallStart(e) => e.base,
            Event::ToolCallArgs(e) => e.base,
            Event::ToolCallEnd(e) => e.base,
            Event::ToolCallChunk(e) => e.base,
            Event::ToolCallResult(e) => e.base,
            Event::ThinkingStart(e) => e.base,
            Event::ThinkingEnd(e) => e.base,
            Event::StateSnapshot(e) => e.base,
            Event::StateDelta(e) => e.base,
            Event::MessagesSnapshot(e) => e.base,
            Event::Raw(e) => e.base,
            Event::Custom(e) => e.base,
            Event::RunStarted(e) => e.base,
            Event::RunFinished(e) => e.base,
            Event::RunError(e) => e.base,
            Event::StepStarted(e) => e.base,
            Event::StepFinished(e) => e.base,
        }
    }

    /// The kind of the event.
    #[verifier::when_used_as_spec(spec_event_type)]
    pub fn event_type(&self) -> (r: EventType)
        ensures
            r == self.spec_event_type(),
    {
        match self {
            Event::TextMessageStart(_) => EventType::TextMessageStart,
            Event::TextMessageContent(_) => EventType::TextMessageContent,
            Event::TextMessageEnd(_) => EventType::TextMessageEnd,
            Event::TextMessageChunk(_) => EventType::TextMessageChunk,
            Event::ThinkingTextMessageStart(_) => EventType::ThinkingTextMessageStart,
            Event::ThinkingTextMessageContent(_) => EventType::ThinkingTextMessageContent,
            Event::ThinkingTextMessageEnd(_) => EventType::ThinkingTextMessageEnd,
            Event::ToolCallStart(_) => EventType::ToolCallStart,
            Event::ToolCallArgs(_) => EventType::ToolCallArgs,
            Event::ToolCallEnd(_) => EventType::ToolCallEnd,
            Event::ToolCallChunk(_) => EventType::ToolCallChunk,
            Event::ToolCallResult(_) => EventType::ToolCallResult,
            Event::ThinkingStart(_) => EventType::ThinkingStart,
            Event::ThinkingEnd(_) => EventType::ThinkingEnd,
            Event::StateSnapshot(_) => EventType::StateSnapshot,
            Event::StateDelta(_) => EventType::StateDelta,
            Event::MessagesSnapshot(_) => EventType::MessagesSnapshot,
            Event::Raw(_) => EventType::Raw,
            Event::Custom(_) => EventType::Custom,
            Event::RunStarted(_) => EventType::RunStarted,
            Event::RunFinished(_) => EventType::RunFinished,
            Event::RunError(_) => EventType::RunError,
            Event::StepStarted(_) => EventType::StepStarted,
            Event::StepFinished(_) => EventType::StepFinished,
        }
    }

    /// The timestamp of the event, where it has one: seconds since the
    /// epoch, as the bit pattern of a double-precision number.
    pub fn timestamp(&self) -> (r: Option<u64>)
        ensures
            r == self.spec_base().timestamp,
    {
        match self {
            Event::TextMessageStart(e) => e.base.timestamp,
            Event::TextMessageContent(e) => e.base.timestamp,
            Event::TextMessageEnd(e) => e.base.timestamp,
            Event::TextMessageChunk(e) => e.base.timestamp,
            Event::ThinkingTextMessageStart(e) => e.base.timestamp,
            Event::ThinkingTextMessageContent(e) => e.base.timestamp,
            Event::ThinkingTextMessageEnd(e) => e.base.timestamp,
            Event::ToolCallStart(e) => e.base.timestamp,
            Event::ToolCallArgs(e) => e.base.timestamp,
            Event::ToolCallEnd(e) => e.base.timestamp,
            Event::ToolCallChunk(e) => e.base.timestamp,
            Event::ToolCallResult(e) => e.base.timestamp,
            Event::ThinkingStart(e) => e.base.timestamp,
            Event::ThinkingEnd(e) => e.base.timestamp,
            Event::StateSnapshot(e) => e.base.timestamp,
            Event::StateDelta(e) => e.base.timestamp,
            Event::MessagesSnapshot(e) => e.base.timestamp,
            Event::Raw(e) => e.base.timestamp,
            Event::Custom(e) => e.base.timestamp,
            Event::RunStarted(e) => e.base.timestamp,
            Event::RunFinished(e) => e.base.timestamp,
            Event::RunError(e) => e.base.timestamp,
            Event::StepStarted(e) => e.base.timestamp,
            Event::StepFinished(e) => e.base.timestamp,
        }
    }
}

/// Why an event is not valid by itself.
#[derive(Debug, Clone, PartialEq, Eq)]
pub enum EventValidationError {
    /// The piece of text is empty.
    EmptyDelta,
    /// The event is malformed in the way the text says.
    InvalidFormat(String),
}

impl TextMessageContentEvent {
    /// Checks the event by itself: the piece of text must not be empty.
    pub fn validate(&self) -> (r: Result<(), EventValidationError>)
        ensures
            r.is_ok() == (self.delta@.len() > 0),
            r.is_err() ==> r == Err::<(), EventValidationError>(EventValidationError::EmptyDelta),
    {
        if self.delta.as_str().is_empty() {
            return Err(EventValidationError::EmptyDelta);
        }
        Ok(())
    }

    /// The event that appends `delta` to the message `message_id`, or
    /// `EmptyDelta` where `delta` is empty.
    pub fn new(message_id: MessageId, delta: String) -> (r: Result<Self, EventValidationError>)
        ensures
            r.is_ok() == (delta@.len() > 0),
            r.is_err() ==> r == Err::<Self, EventValidationError>(EventValidationError::EmptyDelta),
            r.is_ok() ==> r.unwrap() == (TextMessageContentEvent {
                base: BaseEvent { timestamp: None, raw_event: None },
                message_id,
                delta,
            }),
    {
        let event = TextMessageContentEvent {
            base: BaseEvent { timestamp: None, raw_event: None },
            message_id,
            delta,
        };
        match event.validate() {
            Ok(()) => Ok(event),
            Err(e) => Err(e),
        }
    }

    /// The same event with the timestamp set.
    pub fn with_timestamp(self, timestamp: u64) -> (r: Self)
        ensures
            r == (TextMessageContentEvent {
                base: BaseEvent { timestamp: Some(timestamp), ..self.base },
                ..self
            }),
    {
        let mut e = self;
        e.base.timestamp = Some(timestamp);
        e
    }
}

impl TextMessageStartEvent {
    /// The event that starts the assistant message `message_id`.
    pub fn new(message_id: MessageId) -> (r: Self)
        ensures
            r == (TextMessageStartEvent {
                base: BaseEvent { timestamp: None, raw_event: None },
                message_id,
                role: Role::Assistant,
            }),
    {
        TextMessageStartEvent {
            base: BaseEvent { timestamp: None, raw_event: None },
            message_id,
            role: Role::Assistant,
        }
    }

    /// The same event with the timestamp set.
    pub fn with_timestamp(self, timestamp: u64) -> (r: Self)
        ensures
            r == (TextMessageStartEvent {
                base: BaseEvent { timestamp: Some(timestamp), ..self.base },
                ..self
            }),
    {
        let mut e = self;
        e.base.timestamp = Some(timestamp);
        e
    }

    /// The same event with the raw event set.
    pub fn with_raw_event(self, raw_event: JsonValue) -> (r: Self)
        ensures
            r == (TextMessageStartEvent {
                base: BaseEvent { raw_event: Some(raw_event), ..self.base },
                ..self
            }),
    {
        let mut e = self;
        e.base.raw_event = Some(raw_event);
        e
    }
}

} // verus!
