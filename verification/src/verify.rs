//! The protocol verifier: a state machine that accepts the event sequences
//! the protocol allows and rejects every other, saying which rule was
//! broken.

use vstd::prelude::*;
use vstd::string::StringExecFns;
use crate::event::{Event, EventType};
use crate::ids::text_of_id;
use crate::text_set::{texts, without, TextSet};

verus! {

/// The rule that an event broke.
#[derive(Debug, Clone, Copy, PartialEq, Eq, Structural)]
pub enum Violation {
    /// An event after `RUN_ERROR`.
    RunErrored,
    /// An event other than `RUN_STARTED` and `RUN_ERROR` after
    /// `RUN_FINISHED`.
    RunFinished,
    /// A first event other than `RUN_STARTED` and `RUN_ERROR`.
    FirstEvent,
    /// `RUN_STARTED` while a run is active.
    RunActive,
    /// `TEXT_MESSAGE_START` for a message that is streaming.
    MessageActive,
    /// `TEXT_MESSAGE_CONTENT` for a message that is not streaming.
    ContentWithoutMessage,
    /// `TEXT_MESSAGE_END` for a message that is not streaming.
    EndWithoutMessage,
    /// `TOOL_CALL_START` for a tool call that is streaming.
    ToolCallActive,
    /// `TOOL_CALL_ARGS` for a tool call that is not streaming.
    ArgsWithoutToolCall,
    /// `TOOL_CALL_END` for a tool call that is not streaming.
    EndWithoutToolCall,
    /// `STEP_STARTED` for a step that is active.
    StepActive,
    /// `STEP_FINISHED` for a step that is not active.
    StepNotStarted,
    /// `RUN_FINISHED` while steps are active.
    UnfinishedSteps,
    /// `RUN_FINISHED` while messages are streaming.
    UnfinishedMessages,
    /// `RUN_FINISHED` while tool calls are streaming.
    UnfinishedToolCalls,
    /// `THINKING_START` while a thinking step is active.
    ThinkingActive,
    /// `THINKING_END` without a thinking step.
    EndWithoutThinking,
    /// `THINKING_TEXT_MESSAGE_START` without a thinking step.
    ThinkingMessageOutsideThinking,
    /// `THINKING_TEXT_MESSAGE_START` while a thinking message is active.
    ThinkingMessageActive,
    /// `THINKING_TEXT_MESSAGE_CONTENT` without a thinking message.
    ContentWithoutThinkingMessage,
    /// `THINKING_TEXT_MESSAGE_END` without a thinking message.
    EndWithoutThinkingMessage,
    /// `THINKING_TEXT_MESSAGE_CONTENT` without a thinking step.
    ThinkingContentOutsideThinking,
    /// `THINKING_TEXT_MESSAGE_END` without a thinking step.
    ThinkingEndOutsideThinking,
}

/// The state of the verifier, as plain values. The three collections hold
/// their members in the order in which they became active, each once.
pub struct VerifierState {
    pub active_messages: Seq<Seq<char>>,
    pub active_tool_calls: Seq<Seq<char>>,
    pub active_steps: Seq<Seq<char>>,
    pub run_started: bool,
    pub run_finished: bool,
    pub run_error: bool,
    pub first_event_received: bool,
    pub active_thinking: bool,
    pub active_thinking_message: bool,
}

/// Each message, tool call and step that is active stands once in its
/// list.
pub open spec fn distinct(s: VerifierState) -> bool {
    &&& s.active_messages.no_duplicates()
    &&& s.active_tool_calls.no_duplicates()
    &&& s.active_steps.no_duplicates()
}

/// The state before any event.
pub open spec fn initial_state() -> VerifierState {
    VerifierState {
        active_messages: Seq::empty(),
        active_tool_calls: Seq::empty(),
        active_steps: Seq::empty(),
        run_started: false,
        run_finished: false,
        run_error: false,
        first_event_received: false,
        active_thinking: false,
        active_thinking_message: false,
    }
}

/// The state in which a new run starts after a finished one.
pub open spec fn reset_state(s: VerifierState) -> VerifierState {
    VerifierState {
        active_messages: Seq::empty(),
        active_tool_calls: Seq::empty(),
        active_steps: Seq::empty(),
        run_started: true,
        run_finished: false,
        run_error: false,
        first_event_received: s.first_event_received,
        active_thinking: false,
        active_thinking_message: false,
    }
}

/// What the rules of an event speak of: the text of the message
/// identifier, the tool-call identifier or the step name; empty for the
/// other events.
pub open spec fn subject(e: Event) -> Seq<char> {
    match e {
        Event::TextMessageStart(x) => text_of_id(x.message_id@),
        Event::TextMessageContent(x) => text_of_id(x.message_id@),
        Event::TextMessageEnd(x) => text_of_id(x.message_id@),
        Event::ToolCallStart(x) => x.tool_call_id@,
        Event::ToolCallArgs(x) => x.tool_call_id@,
        Event::ToolCallEnd(x) => x.tool_call_id@,
        Event::StepStarted(x) => x.step_name@,
        Event::StepFinished(x) => x.step_name@,
        _ => Seq::empty(),
    }
}

/// The rule on the run as a whole that an event of kind `t` breaks in the
/// state `s`, if any: nothing after an error, only a new run or an error
/// after the end, a run start or an error first, no run start within a
/// run.
pub open spec fn run_violation(s: VerifierState, t: EventType) -> Option<Violation> {
    if s.run_error {
        Some(Violation::RunErrored)
    } else if s.run_finished && t != EventType::RunError && t != EventType::RunStarted {
        Some(Violation::RunFinished)
    } else if !s.first_event_received {
        if t != EventType::RunStarted && t != EventType::RunError {
            Some(Violation::FirstEvent)
        } else {
            None
        }
    } else if t == EventType::RunStarted && s.run_started && !s.run_finished {
        Some(Violation::RunActive)
    } else {
        None
    }
}

/// The state in which the rules of the event itself are looked at: the
/// first event is noted as received, and a run start after a finished run
/// resets the state. An event refused after an error or after the end
/// leaves the state as it is.
pub open spec fn prepared(s: VerifierState, t: EventType) -> VerifierState {
    if s.run_error {
        s
    } else if s.run_finished && t != EventType::RunError && t != EventType::RunStarted {
        s
    } else if !s.first_event_received {
        VerifierState { first_event_received: true, ..s }
    } else if t == EventType::RunStarted && s.run_finished {
        reset_state(s)
    } else {
        s
    }
}

/// The rule of its own kind that the event breaks in the state `s`, if
/// any.
pub open spec fn flow_violation(s: VerifierState, e: Event) -> Option<Violation> {
    let k = subject(e);
    match e {
        Event::TextMessageStart(_) => if s.active_messages.contains(k) {
            Some(Violation::MessageActive)
        } else {
            None
        },
        Event::TextMessageContent(_) => if !s.active_messages.contains(k) {
            Some(Violation::ContentWithoutMessage)
        } else {
            None
        },
        Event::TextMessageEnd(_) => if !s.active_messages.contains(k) {
            Some(Violation::EndWithoutMessage)
        } else {
            None
        },
        Event::ToolCallStart(_) => if s.active_tool_calls.contains(k) {
            Some(Violation::ToolCallActive)
        } else {
            None
        },
        Event::ToolCallArgs(_) => if !s.active_tool_calls.contains(k) {
            Some(Violation::ArgsWithoutToolCall)
        } else {
            None
        },
        Event::ToolCallEnd(_) => if !s.active_tool_calls.contains(k) {
            Some(Violation::EndWithoutToolCall)
        } else {
            None
        },
        Event::StepStarted(_) => if s.active_steps.contains(k) {
            Some(Violation::StepActive)
        } else {
            None
        },
        Event::StepFinished(_) => if !s.active_steps.contains(k) {
            Some(Violation::StepNotStarted)
        } else {
            None
        },
        Event::RunFinished(_) => if s.active_steps.len() != 0 {
            Some(Violation::UnfinishedSteps)
        } else if s.active_messages.len() != 0 {
            Some(Violation::UnfinishedMessages)
        } else if s.active_tool_calls.len() != 0 {
            Some(Violation::UnfinishedToolCalls)
        } else {
            None
        },
        Event::ThinkingStart(_) => if s.active_thinking {
            Some(Violation::ThinkingActive)
        } else {
            None
        },
        Event::ThinkingEnd(_) => if !s.active_thinking {
            Some(Violation::EndWithoutThinking)
        } else {
            None
        },
        Event::ThinkingTextMessageStart(_) => if !s.active_thinking {
            Some(Violation::ThinkingMessageOutsideThinking)
        } else if s.active_thinking_message {
            Some(Violation::ThinkingMessageActive)
        } else {
            None
        },
        Event::ThinkingTextMessageContent(_) => if !s.active_thinking {
            Some(Violation::ThinkingContentOutsideThinking)
        } else if !s.active_thinking_message {
            Some(Violation::ContentWithoutThinkingMessage)
        } else {
            None
        },
        Event::ThinkingTextMessageEnd(_) => if !s.active_thinking {
            Some(Violation::ThinkingEndOutsideThinking)
        } else if !s.active_thinking_message {
            Some(Violation::EndWithoutThinkingMessage)
        } else {
            None
        },
        _ => None,
    }
}

/// The state after an event that breaks no rule.
pub open spec fn advanced(s: VerifierState, e: Event) -> VerifierState {
    let k = subject(e);
    match e {
        Event::TextMessageStart(_) => VerifierState {
            active_messages: s.active_messages.push(k),
            ..s
        },
        Event::TextMessageEnd(_) => VerifierState {
            active_messages: without(s.active_messages, k),
            ..s
        },
        Event::ToolCallStart(_) => VerifierState {
            active_tool_calls: s.active_tool_calls.push(k),
            ..s
        },
        Event::ToolCallEnd(_) => VerifierState {
            active_tool_calls: without(s.active_tool_calls, k),
            ..s
        },
        Event::StepStarted(_) => VerifierState { active_steps: s.active_steps.push(k), ..s },
        Event::StepFinished(_) => VerifierState { active_steps: without(s.active_steps, k), ..s },
        Event::RunStarted(_) => VerifierState { run_started: true, ..s },
        Event::RunFinished(_) => VerifierState { run_finished: true, ..s },
        Event::RunError(_) => VerifierState { run_error: true, ..s },
        Event::ThinkingStart(_) => VerifierState { active_thinking: true, ..s },
        Event::ThinkingEnd(_) => VerifierState { active_thinking: false, ..s },
        Event::ThinkingTextMessageStart(_) => VerifierState { active_thinking_message: true, ..s },
        Event::ThinkingTextMessageEnd(_) => VerifierState { active_thinking_message: false, ..s },
        _ => s,
    }
}

/// The rule that the event `e` breaks in the state `s`, or `None` where
/// the protocol allows `e` there.
pub open spec fn violation_of(s: VerifierState, e: Event) -> Option<Violation> {
    match run_violation(s, e.spec_event_type()) {
        Some(v) => Some(v),
        None => flow_violation(prepared(s, e.spec_event_type()), e),
    }
}

/// The state after the event `e` in the state `s`. An event that is
/// refused changes nothing, but that a first event was seen.
pub open spec fn next_state(s: VerifierState, e: Event) -> VerifierState {
    let p = prepared(s, e.spec_event_type());
    if violation_of(s, e).is_some() {
        p
    } else {
        advanced(p, e)
    }
}

/// The name of an event kind as the messages of the first two rules show
/// it.
pub open spec fn kind_name(t: EventType) -> Seq<char> {
    match t {
        EventType::TextMessageStart => "TextMessageStart"@,
        EventType::TextMessageContent => "TextMessageContent"@,
        EventType::TextMessageEnd => "TextMessageEnd"@,
        EventType::TextMessageChunk => "TextMessageChunk"@,
        EventType::ThinkingTextMessageStart => "ThinkingTextMessageStart"@,
        EventType::ThinkingTextMessageContent => "ThinkingTextMessageContent"@,
        EventType::ThinkingTextMessageEnd => "ThinkingTextMessageEnd"@,
        EventType::ToolCallStart => "ToolCallStart"@,
        EventType::ToolCallArgs => "ToolCallArgs"@,
        EventType::ToolCallEnd => "ToolCallEnd"@,
        EventType::ToolCallChunk => "ToolCallChunk"@,
        EventType::ToolCallResult => "ToolCallResult"@,
        EventType::ThinkingStart => "ThinkingStart"@,
        EventType::ThinkingEnd => "ThinkingEnd"@,
        EventType::StateSnapshot => "StateSnapshot"@,
        EventType::StateDelta => "StateDelta"@,
        EventType::MessagesSnapshot => "MessagesSnapshot"@,
        EventType::Raw => "Raw"@,
        EventType::Custom => "Custom"@,
        EventType::RunStarted => "RunStarted"@,
        EventType::RunFinished => "RunFinished"@,
        EventType::RunError => "RunError"@,
        EventType::StepStarted => "StepStarted"@,
        EventType::StepFinished => "StepFinished"@,
    }
}

fn kind_name_of(t: EventType) -> (r: &'static str)
    ensures
        r@ == kind_name(t),
{
    match t {
        EventType::TextMessageStart => "TextMessageStart",
        EventType::TextMessageContent => "TextMessageContent",
        EventType::TextMessageEnd => "TextMessageEnd",
        EventType::TextMessageChunk => "TextMessageChunk",
        EventType::ThinkingTextMessageStart => "ThinkingTextMessageStart",
        EventType::ThinkingTextMessageContent => "ThinkingTextMessageContent",
        EventType::ThinkingTextMessageEnd => "ThinkingTextMessageEnd",
        EventType::ToolCallStart => "ToolCallStart",
        EventType::ToolCallArgs => "ToolCallArgs",
        EventType::ToolCallEnd => "ToolCallEnd",
        EventType::ToolCallChunk => "ToolCallChunk",
        EventType::ToolCallResult => "ToolCallResult",
        EventType::ThinkingStart => "ThinkingStart",
        EventType::ThinkingEnd => "ThinkingEnd",
        EventType::StateSnapshot => "StateSnapshot",
        EventType::StateDelta => "StateDelta",
        EventType::MessagesSnapshot => "MessagesSnapshot",
        EventType::Raw => "Raw",
        EventType::Custom => "Custom",
        EventType::RunStarted => "RunStarted",
        EventType::RunFinished => "RunFinished",
        EventType::RunError => "RunError",
        EventType::StepStarted => "StepStarted",
        EventType::StepFinished => "StepFinished",
    }
}

/// The protocol construct that the rule is about, as the message names it.
pub open spec fn construct(v: Violation) -> Seq<char> {
    match v {
        Violation::RunErrored => "RUN_ERROR"@,
        Violation::RunFinished => "RUN_FINISHED"@,
        Violation::FirstEvent => "RUN_STARTED"@,
        Violation::RunActive => "RUN_STARTED"@,
        Violation::MessageActive => "TEXT_MESSAGE_START"@,
        Violation::ContentWithoutMessage => "TEXT_MESSAGE_CONTENT"@,
        Violation::EndWithoutMessage => "TEXT_MESSAGE_END"@,
        Violation::ToolCallActive => "TOOL_CALL_START"@,
        Violation::ArgsWithoutToolCall => "TOOL_CALL_ARGS"@,
        Violation::EndWithoutToolCall => "TOOL_CALL_END"@,
        Violation::StepActive => "STEP_STARTED"@,
        Violation::StepNotStarted => "STEP_FINISHED"@,
        Violation::UnfinishedSteps => "RUN_FINISHED"@,
        Violation::UnfinishedMessages => "RUN_FINISHED"@,
        Violation::UnfinishedToolCalls => "RUN_FINISHED"@,
        Violation::ThinkingActive => "THINKING_START"@,
        Violation::EndWithoutThinking => "THINKING_END"@,
        Violation::ThinkingMessageOutsideThinking => "THINKING_TEXT_MESSAGE_START"@,
        Violation::ThinkingMessageActive => "THINKING_TEXT_MESSAGE_START"@,
        Violation::ContentWithoutThinkingMessage => "THINKING_TEXT_MESSAGE_CONTENT"@,
        Violation::EndWithoutThinkingMessage => "THINKING_TEXT_MESSAGE_END"@,
        Violation::ThinkingContentOutsideThinking => "THINKING_TEXT_MESSAGE_CONTENT"@,
        Violation::ThinkingEndOutsideThinking => "THINKING_TEXT_MESSAGE_END"@,
    }
}

fn construct_of(v: Violation) -> (r: &'static str)
    ensures
        r@ == construct(v),
{
    match v {
        Violation::RunErrored => "RUN_ERROR",
        Violation::RunFinished => "RUN_FINISHED",
        Violation::FirstEvent => "RUN_STARTED",
        Violation::RunActive => "RUN_STARTED",
        Violation::MessageActive => "TEXT_MESSAGE_START",
        Violation::ContentWithoutMessage => "TEXT_MESSAGE_CONTENT",
        Violation::EndWithoutMessage => "TEXT_MESSAGE_END",
        Violation::ToolCallActive => "TOOL_CALL_START",
        Violation::ArgsWithoutToolCall => "TOOL_CALL_ARGS",
        Violation::EndWithoutToolCall => "TOOL_CALL_END",
        Violation::StepActive => "STEP_STARTED",
        Violation::StepNotStarted => "STEP_FINISHED",
        Violation::UnfinishedSteps => "RUN_FINISHED",
        Violation::UnfinishedMessages => "RUN_FINISHED",
        Violation::UnfinishedToolCalls => "RUN_FINISHED",
        Violation::ThinkingActive => "THINKING_START",
        Violation::EndWithoutThinking => "THINKING_END",
        Violation::ThinkingMessageOutsideThinking => "THINKING_TEXT_MESSAGE_START",
        Violation::ThinkingMessageActive => "THINKING_TEXT_MESSAGE_START",
        Violation::ContentWithoutThinkingMessage => "THINKING_TEXT_MESSAGE_CONTENT",
        Violation::EndWithoutThinkingMessage => "THINKING_TEXT_MESSAGE_END",
        Violation::ThinkingContentOutsideThinking => "THINKING_TEXT_MESSAGE_CONTENT",
        Violation::ThinkingEndOutsideThinking => "THINKING_TEXT_MESSAGE_END",
    }
}

/// What follows the construct in the message of a rule, up to the place of
/// the subject or of the list of what is still active.
pub open spec fn tail_opening(v: Violation) -> Seq<char> {
    match v {
        Violation::RunErrored => "'. No further events can be sent."@,
        Violation::RunFinished => "'. Start a new run with 'RUN_STARTED'."@,
        Violation::FirstEvent => "'"@,
        Violation::RunActive => "' while a run is still active. The previous run must be finished with 'RUN_FINISHED' before starting a new run."@,
        Violation::MessageActive => "' event: A text message with ID '"@,
        Violation::ContentWithoutMessage => "' event: No active text message found with ID '"@,
        Violation::EndWithoutMessage => "' event: No active text message found with ID '"@,
        Violation::ToolCallActive => "' event: A tool call with ID '"@,
        Violation::ArgsWithoutToolCall => "' event: No active tool call found with ID '"@,
        Violation::EndWithoutToolCall => "' event: No active tool call found with ID '"@,
        Violation::StepActive => "'"@,
        Violation::StepNotStarted => "' for step \""@,
        Violation::UnfinishedSteps => "' while steps are still active: "@,
        Violation::UnfinishedMessages => "' while text messages are still active: "@,
        Violation::UnfinishedToolCalls => "' while tool calls are still active: "@,
        Violation::ThinkingActive => "' event: A thinking step is already in progress. End it with 'THINKING_END' first."@,
        Violation::EndWithoutThinking => "' event: No active thinking step found. A 'THINKING_START' event must be sent first."@,
        Violation::ThinkingMessageOutsideThinking => "' event: A thinking step is not in progress. Create one with 'THINKING_START' first."@,
        Violation::ThinkingMessageActive => "' event: A thinking message is already in progress. Complete it with 'THINKING_TEXT_MESSAGE_END' first."@,
        Violation::ContentWithoutThinkingMessage => "' event: No active thinking message found. Start a message with 'THINKING_TEXT_MESSAGE_START' first."@,
        Violation::EndWithoutThinkingMessage => "' event: No active thinking message found. A 'THINKING_TEXT_MESSAGE_START' event must be sent first."@,
        Violation::ThinkingContentOutsideThinking => "' event: A thinking step is not in progress. Create one with 'THINKING_START' first."@,
        Violation::ThinkingEndOutsideThinking => "' event: A thinking step is not in progress. Create one with 'THINKING_START' first."@,
    }
}

fn tail_opening_of(v: Violation) -> (r: &'static str)
    ensures
        r@ == tail_opening(v),
{
    match v {
        Violation::RunErrored => "'. No further events can be sent.",
        Violation::RunFinished => "'. Start a new run with 'RUN_STARTED'.",
        Violation::FirstEvent => "'",
        Violation::RunActive => "' while a run is still active. The previous run must be finished with 'RUN_FINISHED' before starting a new run.",
        Violation::MessageActive => "' event: A text message with ID '",
        Violation::ContentWithoutMessage => "' event: No active text message found with ID '",
        Violation::EndWithoutMessage => "' event: No active text message found with ID '",
        Violation::ToolCallActive => "' event: A tool call with ID '",
        Violation::ArgsWithoutToolCall => "' event: No active tool call found with ID '",
        Violation::EndWithoutToolCall => "' event: No active tool call found with ID '",
        Violation::StepActive => "'",
        Violation::StepNotStarted => "' for step \"",
        Violation::UnfinishedSteps => "' while steps are still active: ",
        Violation::UnfinishedMessages => "' while text messages are still active: ",
        Violation::UnfinishedToolCalls => "' while tool calls are still active: ",
        Violation::ThinkingActive => "' event: A thinking step is already in progress. End it with 'THINKING_END' first.",
        Violation::EndWithoutThinking => "' event: No active thinking step found. A 'THINKING_START' event must be sent first.",
        Violation::ThinkingMessageOutsideThinking => "' event: A thinking step is not in progress. Create one with 'THINKING_START' first.",
        Violation::ThinkingMessageActive => "' event: A thinking message is already in progress. Complete it with 'THINKING_TEXT_MESSAGE_END' first.",
        Violation::ContentWithoutThinkingMessage => "' event: No active thinking message found. Start a message with 'THINKING_TEXT_MESSAGE_START' first.",
        Violation::EndWithoutThinkingMessage => "' event: No active thinking message found. A 'THINKING_TEXT_MESSAGE_START' event must be sent first.",
        Violation::ThinkingContentOutsideThinking => "' event: A thinking step is not in progress. Create one with 'THINKING_START' first.",
        Violation::ThinkingEndOutsideThinking => "' event: A thinking step is not in progress. Create one with 'THINKING_START' first.",
    }
}

/// What closes the message of a rule.
pub open spec fn tail_closing(v: Violation) -> Seq<char> {
    match v {
        Violation::RunErrored => ""@,
        Violation::RunFinished => ""@,
        Violation::FirstEvent => ""@,
        Violation::RunActive => ""@,
        Violation::MessageActive => "' is already in progress. Complete it with 'TEXT_MESSAGE_END' first."@,
        Violation::ContentWithoutMessage => "'. Start a text message with 'TEXT_MESSAGE_START' first."@,
        Violation::EndWithoutMessage => "'. A 'TEXT_MESSAGE_START' event must be sent first."@,
        Violation::ToolCallActive => "' is already in progress. Complete it with 'TOOL_CALL_END' first."@,
        Violation::ArgsWithoutToolCall => "'. Start a tool call with 'TOOL_CALL_START' first."@,
        Violation::EndWithoutToolCall => "'. A 'TOOL_CALL_START' event must be sent first."@,
        Violation::StepActive => ""@,
        Violation::StepNotStarted => "\" that was not started"@,
        Violation::UnfinishedSteps => ""@,
        Violation::UnfinishedMessages => ""@,
        Violation::UnfinishedToolCalls => ""@,
        Violation::ThinkingActive => ""@,
        Violation::EndWithoutThinking => ""@,
        Violation::ThinkingMessageOutsideThinking => ""@,
        Violation::ThinkingMessageActive => ""@,
        Violation::ContentWithoutThinkingMessage => ""@,
        Violation::EndWithoutThinkingMessage => ""@,
        Violation::ThinkingContentOutsideThinking => ""@,
        Violation::ThinkingEndOutsideThinking => ""@,
    }
}

fn tail_closing_of(v: Violation) -> (r: &'static str)
    ensures
        r@ == tail_closing(v),
{
    match v {
        Violation::RunErrored => "",
        Violation::RunFinished => "",
        Violation::FirstEvent => "",
        Violation::RunActive => "",
        Violation::MessageActive => "' is already in progress. Complete it with 'TEXT_MESSAGE_END' first.",
        Violation::ContentWithoutMessage => "'. Start a text message with 'TEXT_MESSAGE_START' first.",
        Violation::EndWithoutMessage => "'. A 'TEXT_MESSAGE_START' event must be sent first.",
        Violation::ToolCallActive => "' is already in progress. Complete it with 'TOOL_CALL_END' first.",
        Violation::ArgsWithoutToolCall => "'. Start a tool call with 'TOOL_CALL_START' first.",
        Violation::EndWithoutToolCall => "'. A 'TOOL_CALL_START' event must be sent first.",
        Violation::StepActive => "",
        Violation::StepNotStarted => "\" that was not started",
        Violation::UnfinishedSteps => "",
        Violation::UnfinishedMessages => "",
        Violation::UnfinishedToolCalls => "",
        Violation::ThinkingActive => "",
        Violation::EndWithoutThinking => "",
        Violation::ThinkingMessageOutsideThinking => "",
        Violation::ThinkingMessageActive => "",
        Violation::ContentWithoutThinkingMessage => "",
        Violation::EndWithoutThinkingMessage => "",
        Violation::ThinkingContentOutsideThinking => "",
        Violation::ThinkingEndOutsideThinking => "",
    }
}

/// The text before the construct in the message of a rule, for an event
/// of kind `t` about `k`.
pub open spec fn head(v: Violation, t: EventType, k: Seq<char>) -> Seq<char> {
    match v {
        Violation::RunErrored => "Cannot send event type '"@ + kind_name(t)
            + "': The run has already errored with '"@,
        Violation::RunFinished => "Cannot send event type '"@ + kind_name(t)
            + "': The run has already finished with '"@,
        Violation::FirstEvent => "First event must be '"@,
        Violation::StepActive => "Step \""@ + k + "\" is already active for '"@,
        _ => "Cannot send '"@,
    }
}

/// What the message of a rule shows between the opening and the closing of
/// its tail: the subject `k` of the event, the list `active` of what is
/// still active, as `Debug` prints a list of strings, or nothing.
pub open spec fn tail_detail(v: Violation, k: Seq<char>, active: Seq<Seq<char>>) -> Seq<char> {
    match v {
        Violation::MessageActive => k,
        Violation::ContentWithoutMessage => k,
        Violation::EndWithoutMessage => k,
        Violation::ToolCallActive => k,
        Violation::ArgsWithoutToolCall => k,
        Violation::EndWithoutToolCall => k,
        Violation::StepNotStarted => k,
        Violation::UnfinishedSteps => debug_list_text(active),
        Violation::UnfinishedMessages => debug_list_text(active),
        Violation::UnfinishedToolCalls => debug_list_text(active),
        _ => Seq::empty(),
    }
}

/// The text after the construct in the message of a rule.
pub open spec fn tail(v: Violation, k: Seq<char>, active: Seq<Seq<char>>) -> Seq<char> {
    tail_opening(v) + tail_detail(v, k, active) + tail_closing(v)
}

/// The message of a rule broken by an event of kind `t` about `k`, with
/// `active` still active: it names the construct that the rule is about.
pub open spec fn violation_text(
    v: Violation,
    t: EventType,
    k: Seq<char>,
    active: Seq<Seq<char>>,
) -> Seq<char> {
    head(v, t, k) + construct(v) + tail(v, k, active)
}

/// What is still active where `RUN_FINISHED` is refused for the rule `v`;
/// empty for the other rules.
pub open spec fn still_active(v: Violation, s: VerifierState) -> Seq<Seq<char>> {
    match v {
        Violation::UnfinishedSteps => s.active_steps,
        Violation::UnfinishedMessages => s.active_messages,
        Violation::UnfinishedToolCalls => s.active_tool_calls,
        _ => Seq::empty(),
    }
}

/// How `Debug` prints a list of strings: in square brackets, separated by
/// commas, each in double quotes with its special characters escaped.
pub uninterp spec fn debug_list_text(items: Seq<Seq<char>>) -> Seq<char>;

/// `Debug` of `Vec<String>`, through `format!`: a function of the strings
/// alone. The result is the one named by [`debug_list_text`].
#[verifier::external_body]
fn debug_list(items: &Vec<String>) -> (r: String)
    ensures
        r@ == debug_list_text(texts(items@)),
{
    format!("{:?}", items)
}

/// A rejection: the rule that was broken, the kind of the event that broke
/// it, and the message that says so.
#[derive(Debug, Clone, PartialEq, Eq)]
pub struct ProtocolError {
    pub violation: Violation,
    pub event_type: EventType,
    pub message: String,
}

impl ProtocolError {
    /// The message of the rejection.
    pub fn to_string(&self) -> (r: String)
        ensures
            r@ == self.message@,
    {
        self.message.clone()
    }
}

/// The rejection of an event of kind `t` about `k` for the rule `v`, with
/// `active` still active.
fn rejection(v: Violation, t: EventType, k: &str, active: &Vec<String>) -> (r: ProtocolError)
    ensures
        r.violation == v,
        r.event_type == t,
        r.message@ == violation_text(v, t, k@, texts(active@)),
{
    let mut message = match v {
        Violation::RunErrored => {
            let mut m = "Cannot send event type '".to_owned();
            m.append(kind_name_of(t));
            m.append("': The run has already errored with '");
            m
        },
        Violation::RunFinished => {
            let mut m = "Cannot send event type '".to_owned();
            m.append(kind_name_of(t));
            m.append("': The run has already finished with '");
            m
        },
        Violation::FirstEvent => "First event must be '".to_owned(),
        Violation::StepActive => {
            let mut m = "Step \"".to_owned();
            m.append(k);
            m.append("\" is already active for '");
            m
        },
        _ => "Cannot send '".to_owned(),
    };
    assert(message@ == head(v, t, k@));
    message.append(construct_of(v));
    message.append(tail_opening_of(v));
    match v {
        Violation::MessageActive => { message.append(k); },
        Violation::ContentWithoutMessage => { message.append(k); },
        Violation::EndWithoutMessage => { message.append(k); },
        Violation::ToolCallActive => { message.append(k); },
        Violation::ArgsWithoutToolCall => { message.append(k); },
        Violation::EndWithoutToolCall => { message.append(k); },
        Violation::StepNotStarted => { message.append(k); },
        Violation::UnfinishedSteps => {
            let list = debug_list(active);
            message.append(list.as_str());
        },
        Violation::UnfinishedMessages => {
            let list = debug_list(active);
            message.append(list.as_str());
        },
        Violation::UnfinishedToolCalls => {
            let list = debug_list(active);
            message.append(list.as_str());
        },
        _ => {
            assert(message@ + Seq::<char>::empty() == message@);
        },
    }
    message.append(tail_closing_of(v));
    assert(message@ == violation_text(v, t, k@, texts(active@))) by {
        let h = head(v, t, k@);
        let c = construct(v);
        let o = tail_opening(v);
        let d = tail_detail(v, k@, texts(active@));
        let z = tail_closing(v);
        assert(message@ == h + c + o + d + z);
        assert(h + c + o + d + z =~= h + c + (o + d + z));
    }
    ProtocolError { violation: v, event_type: t, message }
}

/// The message of a rule names the construct that the rule is about: the
/// construct stands in it, between what comes before and what comes after.
pub proof fn lemma_message_names_construct(
    v: Violation,
    t: EventType,
    k: Seq<char>,
    active: Seq<Seq<char>>,
)
    ensures
        exists|before: Seq<char>, after: Seq<char>|
            violation_text(v, t, k, active) == before + construct(v) + after,
{
    assert(violation_text(v, t, k, active) == head(v, t, k) + construct(v) + tail(v, k, active));
}


/// The protocol verifier. Feed it the events of a stream in order; it
/// accepts each event that the protocol allows after those before it.
#[derive(Debug)]
pub struct EventVerifier {
    active_messages: TextSet,
    active_tool_calls: TextSet,
    active_steps: TextSet,
    run_started: bool,
    run_finished: bool,
    run_error: bool,
    first_event_received: bool,
    active_thinking: bool,
    active_thinking_message: bool,
    debug: bool,
}

impl View for EventVerifier {
    type V = VerifierState;

    closed spec fn view(&self) -> VerifierState {
        VerifierState {
            active_messages: self.active_messages@,
            active_tool_calls: self.active_tool_calls@,
            active_steps: self.active_steps@,
            run_started: self.run_started,
            run_finished: self.run_finished,
            run_error: self.run_error,
            first_event_received: self.first_event_received,
            active_thinking: self.active_thinking,
            active_thinking_message: self.active_thinking_message,
        }
    }
}

impl Default for EventVerifier {
    /// A verifier that has seen no event, not in debug mode.
    fn default() -> (r: Self)
        ensures
            r@ == initial_state(),
            distinct(r@),
            !r.spec_debug(),
    {
        EventVerifier::new()
    }
}

impl EventVerifier {
    /// In every verifier each active message, tool call and step stands
    /// once in its list.
    pub proof fn lemma_distinct(self)
        ensures
            distinct(self@),
    {
        self.active_messages.lemma_distinct();
        self.active_tool_calls.lemma_distinct();
        self.active_steps.lemma_distinct();
    }

    /// Whether the verifier is in debug mode, in specifications.
    pub closed spec fn spec_debug(&self) -> bool {
        self.debug
    }

    /// A verifier that has seen no event, not in debug mode.
    pub fn new() -> (r: Self)
        ensures
            r@ == initial_state(),
            distinct(r@),
            !r.spec_debug(),
    {
        EventVerifier {
            active_messages: TextSet::new(),
            active_tool_calls: TextSet::new(),
            active_steps: TextSet::new(),
            run_started: false,
            run_finished: false,
            run_error: false,
            first_event_received: false,
            active_thinking: false,
            active_thinking_message: false,
            debug: false,
        }
    }

    /// The same verifier with debug mode set as given.
    pub fn with_debug(self, debug: bool) -> (r: Self)
        ensures
            r@ == self@,
            distinct(r@),
            r.spec_debug() == debug,
    {
        let mut v = self;
        v.debug = debug;
        proof {
            v.lemma_distinct();
        }
        v
    }

    /// Whether the verifier is in debug mode.
    pub fn debug(&self) -> (r: bool)
        ensures
            r == self.spec_debug(),
    {
        self.debug
    }

    /// Makes the state ready for a new run after a finished one: nothing is
    /// active, and the run counts as started.
    pub fn reset_run_state(&mut self)
        ensures
            final(self)@ == reset_state(old(self)@),
            distinct(final(self)@),
            final(self).spec_debug() == old(self).spec_debug(),
    {
        self.active_messages.clear();
        self.active_tool_calls.clear();
        self.active_steps.clear();
        self.active_thinking = false;
        self.active_thinking_message = false;
        self.run_finished = false;
        self.run_error = false;
        self.run_started = true;
    }

    /// The rejection of `event` for the rule `v`, in the present state.
    fn reject(&self, v: Violation, event: &Event, k: &str) -> (r: ProtocolError)
        requires
            k@ == subject(*event),
        ensures
            r.violation == v,
            r.event_type == event.spec_event_type(),
            r.message@ == violation_text(
                v,
                event.spec_event_type(),
                subject(*event),
                still_active(v, self@),
            ),
    {
        let active = match v {
            Violation::UnfinishedSteps => self.active_steps.to_vec(),
            Violation::UnfinishedMessages => self.active_messages.to_vec(),
            Violation::UnfinishedToolCalls => self.active_tool_calls.to_vec(),
            _ => {
                let none: Vec<String> = Vec::new();
                assert(texts(none@) =~= Seq::<Seq<char>>::empty());
                none
            },
        };
        rejection(v, event.event_type(), k, &active)
    }

    /// Checks the rules on the run as a whole, and makes the state ready
    /// for the rules of the event itself.
    fn prepare(&mut self, t: EventType) -> (r: Option<Violation>)
        ensures
            r == run_violation(old(self)@, t),
            final(self)@ == prepared(old(self)@, t),
            final(self).spec_debug() == old(self).spec_debug(),
    {
        if self.run_error {
            return Some(Violation::RunErrored);
        }
        if self.run_finished && t != EventType::RunError && t != EventType::RunStarted {
            return Some(Violation::RunFinished);
        }
        if !self.first_event_received {
            self.first_event_received = true;
            if t != EventType::RunStarted && t != EventType::RunError {
                return Some(Violation::FirstEvent);
            }
        } else if t == EventType::RunStarted {
            if self.run_started && !self.run_finished {
                return Some(Violation::RunActive);
            }
            if self.run_finished {
                self.reset_run_state();
            }
        }
        None
    }

    /// Checks the rules of the event itself and, where it breaks none,
    /// takes the step.
    fn advance(&mut self, event: &Event) -> (r: Option<Violation>)
        ensures
            r == flow_violation(old(self)@, *event),
            final(self)@ == (if r.is_some() {
                old(self)@
            } else {
                advanced(old(self)@, *event)
            }),
            final(self).spec_debug() == old(self).spec_debug(),
    {
        match event {
            Event::TextMessageStart(e) => {
                let k = e.message_id.to_string();
                if self.active_messages.contains(k.as_str()) {
                    return Some(Violation::MessageActive);
                }
                self.active_messages.insert(k);
            },
            Event::TextMessageContent(e) => {
                let k = e.message_id.to_string();
                if !self.active_messages.contains(k.as_str()) {
                    return Some(Violation::ContentWithoutMessage);
                }
            },
            Event::TextMessageEnd(e) => {
                let k = e.message_id.to_string();
                if !self.active_messages.contains(k.as_str()) {
                    return Some(Violation::EndWithoutMessage);
                }
                self.active_messages.remove(k.as_str());
            },
            Event::ToolCallStart(e) => {
                let k = e.tool_call_id.to_string();
                if self.active_tool_calls.contains(k.as_str()) {
                    return Some(Violation::ToolCallActive);
                }
                self.active_tool_calls.insert(k);
            },
            Event::ToolCallArgs(e) => {
                let k = e.tool_call_id.to_string();
                if !self.active_tool_calls.contains(k.as_str()) {
                    return Some(Violation::ArgsWithoutToolCall);
                }
            },
            Event::ToolCallEnd(e) => {
                let k = e.tool_call_id.to_string();
                if !self.active_tool_calls.contains(k.as_str()) {
                    return Some(Violation::EndWithoutToolCall);
                }
                self.active_tool_calls.remove(k.as_str());
            },
            Event::StepStarted(e) => {
                let k = e.step_name.clone();
                if self.active_steps.contains(k.as_str()) {
                    return Some(Violation::StepActive);
                }
                self.active_steps.insert(k);
            },
            Event::StepFinished(e) => {
                let k = e.step_name.clone();
                if !self.active_steps.contains(k.as_str()) {
                    return Some(Violation::StepNotStarted);
                }
                self.active_steps.remove(k.as_str());
            },
            Event::RunStarted(_) => {
                self.run_started = true;
            },
            Event::RunFinished(_) => {
                if !self.active_steps.is_empty() {
                    return Some(Violation::UnfinishedSteps);
                }
                if !self.active_messages.is_empty() {
                    return Some(Violation::UnfinishedMessages);
                }
                if !self.active_tool_calls.is_empty() {
                    return Some(Violation::UnfinishedToolCalls);
                }
                self.run_finished = true;
            },
            Event::RunError(_) => {
                self.run_error = true;
            },
            Event::ThinkingStart(_) => {
                if self.active_thinking {
                    return Some(Violation::ThinkingActive);
                }
                self.active_thinking = true;
            },
            Event::ThinkingEnd(_) => {
                if !self.active_thinking {
                    return Some(Violation::EndWithoutThinking);
                }
                self.active_thinking = false;
            },
            Event::ThinkingTextMessageStart(_) => {
                if !self.active_thinking {
                    return Some(Violation::ThinkingMessageOutsideThinking);
                }
                if self.active_thinking_message {
                    return Some(Violation::ThinkingMessageActive);
                }
                self.active_thinking_message = true;
            },
            Event::ThinkingTextMessageContent(_) => {
                if !self.active_thinking {
                    return Some(Violation::ThinkingContentOutsideThinking);
                }
                if !self.active_thinking_message {
                    return Some(Violation::ContentWithoutThinkingMessage);
                }
            },
            Event::ThinkingTextMessageEnd(_) => {
                if !self.active_thinking {
                    return Some(Violation::ThinkingEndOutsideThinking);
                }
                if !self.active_thinking_message {
                    return Some(Violation::EndWithoutThinkingMessage);
                }
                self.active_thinking_message = false;
            },
            Event::TextMessageChunk(_)
            | Event::ToolCallChunk(_)
            | Event::ToolCallResult(_)
            | Event::StateSnapshot(_)
            | Event::StateDelta(_)
            | Event::MessagesSnapshot(_)
            | Event::Raw(_)
            | Event::Custom(_) => {},
        }
        None
    }

    /// The subject of an event: what its rules speak of.
    fn subject_of(event: &Event) -> (r: String)
        ensures
            r@ == subject(*event),
    {
        match event {
            Event::TextMessageStart(e) => e.message_id.to_string(),
            Event::TextMessageContent(e) => e.message_id.to_string(),
            Event::TextMessageEnd(e) => e.message_id.to_string(),
            Event::ToolCallStart(e) => e.tool_call_id.to_string(),
            Event::ToolCallArgs(e) => e.tool_call_id.to_string(),
            Event::ToolCallEnd(e) => e.tool_call_id.to_string(),
            Event::StepStarted(e) => e.step_name.clone(),
            Event::StepFinished(e) => e.step_name.clone(),
            _ => String::new(),
        }
    }

    /// Verifies one event against the events before it.
    ///
    /// Accepts the event exactly where the protocol allows it in the
    /// present state, and then takes the step. Otherwise the rejection
    /// says which rule was broken, in a message that names the construct,
    /// and the state stays as it was, but that a first event was seen.
    pub fn verify(&mut self, event: &Event) -> (r: Result<(), ProtocolError>)
        ensures
            distinct(old(self)@),
            distinct(final(self)@),
            final(self)@ == next_state(old(self)@, *event),
            final(self).spec_debug() == old(self).spec_debug(),
            r.is_ok() == violation_of(old(self)@, *event).is_none(),
            r matches Err(e) ==> {
                let v = violation_of(old(self)@, *event).unwrap();
                &&& e.violation == v
                &&& e.event_type == event.spec_event_type()
                &&& e.message@ == violation_text(
                    v,
                    event.spec_event_type(),
                    subject(*event),
                    still_active(v, final(self)@),
                )
            },
    {
        proof {
            self.lemma_distinct();
        }
        let t = event.event_type();
        let broken = match self.prepare(t) {
            Some(v) => Some(v),
            None => self.advance(event),
        };
        proof {
            self.lemma_distinct();
        }
        match broken {
            Some(v) => {
                let k = Self::subject_of(event);
                Err(self.reject(v, event, k.as_str()))
            },
            None => Ok(()),
        }
    }
}


/// The state after the events `events` in order, from the state `s`.
pub open spec fn state_after(s: VerifierState, events: Seq<Event>) -> VerifierState
    decreases events.len(),
{
    if events.len() == 0 {
        s
    } else {
        state_after(next_state(s, events[0]), events.drop_first())
    }
}

/// Whether the protocol allows the events `events` in order, from the
/// state `s`: each is allowed in the state that those before it lead to.
pub open spec fn accepts(s: VerifierState, events: Seq<Event>) -> bool
    decreases events.len(),
{
    events.len() == 0 || (violation_of(s, events[0]).is_none() && accepts(
        next_state(s, events[0]),
        events.drop_first(),
    ))
}

/// The state after a sequence followed by another is the state after the
/// second from the state after the first.
pub proof fn lemma_state_after_concat(s: VerifierState, a: Seq<Event>, b: Seq<Event>)
    ensures
        state_after(s, a + b) == state_after(state_after(s, a), b),
    decreases a.len(),
{
    if a.len() == 0 {
        assert(a + b =~= b);
    } else {
        assert((a + b).drop_first() =~= a.drop_first() + b);
        lemma_state_after_concat(next_state(s, a[0]), a.drop_first(), b);
    }
}

/// A sequence followed by another is allowed exactly where the first is
/// allowed and the second is allowed after it.
pub proof fn lemma_accepts_concat(s: VerifierState, a: Seq<Event>, b: Seq<Event>)
    ensures
        accepts(s, a + b) == (accepts(s, a) && accepts(state_after(s, a), b)),
    decreases a.len(),
{
    if a.len() == 0 {
        assert(a + b =~= b);
    } else {
        assert((a + b).drop_first() =~= a.drop_first() + b);
        lemma_accepts_concat(next_state(s, a[0]), a.drop_first(), b);
    }
}

impl EventVerifier {
    /// Verifies the events of a stream in order, up to the first that the
    /// protocol does not allow.
    ///
    /// Gives `Ok` exactly where the protocol allows the whole sequence
    /// from the present state; the verifier is then in the state after it.
    /// Otherwise gives the place of the first event that is not allowed
    /// and its rejection; the events before it were allowed, and the
    /// verifier is in the state after the refused event.
    pub fn verify_stream(&mut self, events: &Vec<Event>) -> (r: Result<(), (usize, ProtocolError)>)
        ensures
            distinct(old(self)@),
            distinct(final(self)@),
            r.is_ok() == accepts(old(self)@, events@),
            r.is_ok() ==> final(self)@ == state_after(old(self)@, events@),
            final(self).spec_debug() == old(self).spec_debug(),
            r matches Err(p) ==> {
                let before = state_after(old(self)@, events@.subrange(0, p.0 as int));
                &&& p.0 < events@.len()
                &&& accepts(old(self)@, events@.subrange(0, p.0 as int))
                &&& violation_of(before, events@[p.0 as int]) == Some(p.1.violation)
                &&& p.1.event_type == events@[p.0 as int].spec_event_type()
                &&& p.1.message@ == violation_text(
                    p.1.violation,
                    p.1.event_type,
                    subject(events@[p.0 as int]),
                    still_active(p.1.violation, final(self)@),
                )
                &&& final(self)@ == next_state(before, events@[p.0 as int])
            },
    {
        let ghost start = self@;
        let mut i: usize = 0;
        proof {
            self.lemma_distinct();
            assert(events@.subrange(0, 0) =~= Seq::<Event>::empty());
            assert(events@.subrange(0, events@.len() as int) =~= events@);
        }
        while i < events.len()
            invariant
                i <= events@.len(),
                start == old(self)@,
                distinct(start),
                distinct(self@),
                self@ == state_after(start, events@.subrange(0, i as int)),
                accepts(start, events@.subrange(0, i as int)),
                self.spec_debug() == old(self).spec_debug(),
            decreases events@.len() - i,
        {
            let ghost prefix = events@.subrange(0, i as int);
            let ghost one = seq![events@[i as int]];
            let ghost before = self@;
            proof {
                assert(events@.subrange(0, i + 1) =~= prefix + one);
                lemma_state_after_concat(start, prefix, one);
                lemma_accepts_concat(start, prefix, one);
                assert(one.drop_first() =~= Seq::<Event>::empty());
                assert(state_after(self@, one) == next_state(self@, events@[i as int])) by {
                    assert(state_after(next_state(self@, one[0]), one.drop_first()) == next_state(
                        self@,
                        one[0],
                    ));
                }
                assert(accepts(self@, one) == violation_of(self@, events@[i as int]).is_none()) by {
                    assert(accepts(next_state(self@, one[0]), one.drop_first()));
                }
            }
            match self.verify(&events[i]) {
                Ok(()) => {},
                Err(e) => {
                    proof {
                        let rest = events@.subrange(i + 1, events@.len() as int);
                        assert(events@ =~= (prefix + one) + rest);
                        lemma_accepts_concat(start, prefix + one, rest);
                        assert(!accepts(before, one));
                        assert(!accepts(start, events@));
                        assert(violation_of(before, events@[i as int]) == Some(e.violation));
                    }
                    return Err((i, e));
                },
            }
            i += 1;
        }
        Ok(())
    }
}

} // verus!
