//! The client run engine: folds the events of a run into the conversation
//! (messages and state), and says what to tell the subscribers.

use vstd::prelude::*;
use vstd::string::StringExecFns;
use crate::event::{Event, ToolCallStartEvent};
use crate::ids::{IdModel, MessageId};
use crate::json::{
    json_empty_object, json_null, json_object_parsed, json_patched, json_text, json_texts,
    parse_json_object, parse_patch, patch_document, patch_parsed, JsonValue,
};
use crate::message::{
    clone_messages, messages_view, tool_calls_view, FunctionCall, FunctionCallView, Message,
    MessageView, Role, ToolCall, ToolCallView,
};

verus! {

/// Why a run failed on the client side.
#[derive(Debug, Clone, PartialEq, Eq)]
pub enum AgentError {
    /// The run could not go on; a state patch that does not apply is one
    /// such case.
    ExecutionError { message: String },
    /// The agent was set up wrongly.
    ConfigError { message: String },
    /// JSON could not be read or written.
    SerializationError { message: String },
}

impl AgentError {
    /// The text of the error, in specifications.
    pub open spec fn text(&self) -> Seq<char> {
        match *self {
            AgentError::ExecutionError { message } => "Agent execution failed: "@ + message@,
            AgentError::ConfigError { message } => "Invalid configuration: "@ + message@,
            AgentError::SerializationError { message } => "Serialization error: "@ + message@,
        }
    }

    /// The text of the error.
    pub fn to_string(&self) -> (r: String)
        ensures
            r@ == self.text(),
    {
        match self {
            AgentError::ExecutionError { message } => "Agent execution failed: ".to_owned().concat(
                message.as_str(),
            ),
            AgentError::ConfigError { message } => "Invalid configuration: ".to_owned().concat(
                message.as_str(),
            ),
            AgentError::SerializationError { message } => "Serialization error: ".to_owned().concat(
                message.as_str(),
            ),
        }
    }
}

/// A change to the conversation: new messages, a new state, or both, and
/// whether the subscribers after this one are to be passed over.
#[derive(Debug)]
pub struct AgentStateMutation {
    pub messages: Option<Vec<Message>>,
    pub state: Option<JsonValue>,
    pub stop_propagation: bool,
}

/// A change to the conversation, as plain values; a state as its JSON
/// text.
pub struct MutationView {
    pub messages: Option<Seq<MessageView>>,
    pub state: Option<Seq<char>>,
    pub stop_propagation: bool,
}

impl View for AgentStateMutation {
    type V = MutationView;

    open spec fn view(&self) -> MutationView {
        MutationView {
            messages: match self.messages {
                Some(ms) => Some(messages_view(ms@)),
                None => None,
            },
            state: match self.state {
                Some(s) => Some(json_text(s)),
                None => None,
            },
            stop_propagation: self.stop_propagation,
        }
    }
}

impl Default for AgentStateMutation {
    /// The change that changes nothing.
    fn default() -> (r: Self)
        ensures
            r@ == (MutationView { messages: None, state: None, stop_propagation: false }),
    {
        AgentStateMutation { messages: None, state: None, stop_propagation: false }
    }
}

impl Clone for AgentStateMutation {
    fn clone(&self) -> (r: Self)
        ensures
            r@ == self@,
    {
        AgentStateMutation {
            messages: match &self.messages {
                Some(ms) => Some(clone_messages(ms)),
                None => None,
            },
            state: match &self.state {
                Some(s) => Some(s.clone()),
                None => None,
            },
            stop_propagation: self.stop_propagation,
        }
    }
}

/// The conversation that the engine holds, as plain values; the state
/// and the result as their JSON texts.
pub struct EngineView {
    pub messages: Seq<MessageView>,
    pub state: Seq<char>,
    pub result: Seq<char>,
}

/// The text of a message, empty where it has none.
pub open spec fn text_of(content: Option<Seq<char>>) -> Seq<char> {
    match content {
        Some(t) => t,
        None => Seq::empty(),
    }
}

/// The tool calls of a message, none where it has no list.
pub open spec fn calls_of(calls: Option<Seq<ToolCallView>>) -> Seq<ToolCallView> {
    match calls {
        Some(c) => c,
        None => Seq::empty(),
    }
}

/// `ms` with its last message replaced by `m`.
pub open spec fn with_last(ms: Seq<MessageView>, m: MessageView) -> Seq<MessageView> {
    ms.drop_last().push(m)
}

/// The assistant message that a text message starts as: the empty text.
pub open spec fn started_message(id: IdModel) -> MessageView {
    MessageView {
        role: Role::Assistant,
        id,
        content: Some(Seq::empty()),
        name: None,
        tool_calls: None,
        tool_call_id: None,
        error: None,
    }
}

/// The assistant message that a tool call without a place to go creates:
/// no text and no tool calls.
pub open spec fn bare_message(id: IdModel) -> MessageView {
    MessageView {
        role: Role::Assistant,
        id,
        content: None,
        name: None,
        tool_calls: None,
        tool_call_id: None,
        error: None,
    }
}

/// The tool call that a `TOOL_CALL_START` event starts: no arguments yet.
pub open spec fn started_call(e: ToolCallStartEvent) -> ToolCallView {
    ToolCallView {
        id: e.tool_call_id@,
        call_type: "function"@,
        function: FunctionCallView { name: e.tool_call_name@, arguments: Seq::empty() },
    }
}

/// Whether `parent` names the message `id`: identifiers are the same where
/// their UUIDs are.
pub open spec fn names(parent: Option<MessageId>, id: IdModel) -> bool {
    parent matches Some(p) && p@.uuid == id.uuid
}

/// `m` with `delta` appended to its text.
pub open spec fn with_more_text(m: MessageView, delta: Seq<char>) -> MessageView {
    MessageView { content: Some(text_of(m.content) + delta), ..m }
}

/// `c` with `delta` appended to its arguments.
pub open spec fn with_more_arguments(c: ToolCallView, delta: Seq<char>) -> ToolCallView {
    ToolCallView {
        function: FunctionCallView { arguments: c.function.arguments + delta, ..c.function },
        ..c
    }
}

/// The messages after the event `e`, by the rules of the fold; `fresh` is
/// the identifier of a message that a tool call creates without naming
/// one.
///
/// - A text message start appends an assistant message with the empty
///   text.
/// - Text content is appended to the text of the last message.
/// - A tool call start whose parent is the last message appends the call
///   to it, where it is an assistant message; any other creates a new
///   assistant message, named by the parent where there is one.
/// - Tool call arguments are appended to those of the last call of the
///   last message; an assistant message without a list of calls gets the
///   empty list.
pub open spec fn messages_after(ms: Seq<MessageView>, e: Event, fresh: IdModel) -> Seq<MessageView> {
    match e {
        Event::TextMessageStart(x) => ms.push(started_message(x.message_id@)),
        Event::TextMessageContent(x) => if ms.len() > 0 {
            with_last(ms, with_more_text(ms.last(), x.delta@))
        } else {
            ms
        },
        Event::ToolCallStart(x) => if ms.len() > 0 && names(x.parent_message_id, ms.last().id) {
            if ms.last().role == Role::Assistant {
                with_last(
                    ms,
                    MessageView {
                        tool_calls: Some(calls_of(ms.last().tool_calls).push(started_call(x))),
                        ..ms.last()
                    },
                )
            } else {
                ms
            }
        } else {
            ms.push(
                bare_message(
                    match x.parent_message_id {
                        Some(p) => p@,
                        None => fresh,
                    },
                ),
            )
        },
        Event::ToolCallArgs(x) => if ms.len() > 0 && ms.last().role == Role::Assistant {
            let calls = calls_of(ms.last().tool_calls);
            if calls.len() > 0 {
                with_last(
                    ms,
                    MessageView {
                        tool_calls: Some(
                            calls.drop_last().push(with_more_arguments(calls.last(), x.delta@)),
                        ),
                        ..ms.last()
                    },
                )
            } else {
                with_last(ms, MessageView { tool_calls: Some(Seq::empty()), ..ms.last() })
            }
        } else {
            ms
        },
        _ => ms,
    }
}

/// Whether the change that the event `e` makes by default carries the
/// messages.
pub open spec fn carries_messages(ms: Seq<MessageView>, e: Event) -> bool {
    match e {
        Event::TextMessageStart(_) => true,
        Event::TextMessageContent(_) => ms.len() > 0,
        Event::ToolCallStart(_) => true,
        Event::ToolCallArgs(_) => ms.len() > 0 && ms.last().role == Role::Assistant && calls_of(
            ms.last().tool_calls,
        ).len() > 0,
        _ => false,
    }
}

/// The state after the event `e`, as its JSON text: the snapshot of a
/// `STATE_SNAPSHOT`, the patched state of a `STATE_DELTA`, else the state
/// as it was. `None` where the delta is no patch document or does not
/// apply.
pub open spec fn state_after_event(state: Seq<char>, e: Event) -> Option<Seq<char>> {
    match e {
        Event::StateSnapshot(x) => Some(json_text(x.snapshot)),
        Event::StateDelta(x) => match patch_parsed(json_texts(x.delta@)) {
            Some(ops) => json_patched(state, ops),
            None => None,
        },
        _ => Some(state),
    }
}

/// Whether the change that the event `e` makes by default carries the
/// state.
pub open spec fn carries_state(e: Event) -> bool {
    e is StateSnapshot || e is StateDelta
}

/// The result of the run after the event `e`, as its JSON text: the result
/// of a `RUN_FINISHED`, JSON `null` where that has none, else the result
/// as it was.
pub open spec fn result_after(before: Seq<char>, e: Event) -> Seq<char> {
    match e {
        Event::RunFinished(x) => match x.result {
            Some(r) => json_text(r),
            None => "null"@,
        },
        _ => before,
    }
}

/// The run engine: the conversation of one run, and the result of the run
/// once it has finished.
#[derive(Debug)]
pub struct EventHandler {
    pub messages: Vec<Message>,
    pub state: JsonValue,
    pub result: JsonValue,
    /// The UUIDs of the messages as they stood before the event that is
    /// being handled: a message with another one is new.
    pub settled: Vec<u128>,
}

impl View for EventHandler {
    type V = EngineView;

    open spec fn view(&self) -> EngineView {
        EngineView {
            messages: messages_view(self.messages@),
            state: json_text(self.state),
            result: json_text(self.result),
        }
    }
}

/// What holds of the engine `after` and of the change `change` where the
/// event `e` was folded into the engine `before`, with `fresh` the
/// identifier of a message that was created without a name.
pub open spec fn folded(
    before: EngineView,
    e: Event,
    fresh: IdModel,
    after: EngineView,
    change: MutationView,
) -> bool {
    &&& after.messages == messages_after(before.messages, e, fresh)
    &&& Some(after.state) == state_after_event(before.state, e)
    &&& after.result == result_after(before.result, e)
    &&& change.messages == (if carries_messages(before.messages, e) {
        Some(after.messages)
    } else {
        None
    })
    &&& change.state == (if carries_state(e) {
        Some(after.state)
    } else {
        None
    })
    &&& !change.stop_propagation
}

impl EventHandler {
    /// The UUIDs of the messages that the subscribers know of: those of
    /// the messages as they stood when the last change was applied.
    pub open spec fn settled(&self) -> Seq<u128> {
        self.settled@
    }

    /// The engine of a run that starts from the given messages and state;
    /// its result is JSON `null` until the run finishes. The subscribers
    /// know of the given messages.
    pub fn new(messages: Vec<Message>, state: JsonValue) -> (r: Self)
        ensures
            r.messages == messages,
            r.state == state,
            json_text(r.result) == "null"@,
            r.settled() == uuids(messages_view(messages@)),
    {
        let settled = ids_of(&messages);
        EventHandler { messages, state, result: json_null(), settled }
    }

    /// Appends `delta` to the text of the last message.
    fn append_text(&mut self, delta: &str)
        requires
            old(self).messages@.len() > 0,
        ensures
            final(self).settled() == old(self).settled(),
            final(self)@ == (EngineView {
                messages: with_last(
                    old(self)@.messages,
                    with_more_text(old(self)@.messages.last(), delta@),
                ),
                ..old(self)@
            }),
    {
        let ghost before = messages_view(self.messages@);
        let mut last = self.messages.pop().unwrap();
        match last.content_mut() {
            Some(text) => {
                text.append(delta);
            },
            None => {},
        }
        self.messages.push(last);
        assert(messages_view(self.messages@) =~= with_last(
            before,
            with_more_text(before.last(), delta@),
        ));
    }

    /// Appends the call that `e` starts to the last message, where that
    /// is an assistant message.
    fn append_call(&mut self, e: &ToolCallStartEvent)
        requires
            old(self).messages@.len() > 0,
        ensures
            final(self).settled() == old(self).settled(),
            final(self)@ == (EngineView {
                messages: if old(self)@.messages.last().role == Role::Assistant {
                    with_last(
                        old(self)@.messages,
                        MessageView {
                            tool_calls: Some(
                                calls_of(old(self)@.messages.last().tool_calls).push(started_call(*e)),
                            ),
                            ..old(self)@.messages.last()
                        },
                    )
                } else {
                    old(self)@.messages
                },
                ..old(self)@
            }),
    {
        let ghost before = messages_view(self.messages@);
        let call = ToolCall {
            id: e.tool_call_id.clone(),
            call_type: "function".to_owned(),
            function: FunctionCall { name: e.tool_call_name.clone(), arguments: String::new() },
        };
        assert(call@ == started_call(*e));
        let mut last = self.messages.pop().unwrap();
        match last.tool_calls_mut() {
            Some(calls) => {
                let ghost had = tool_calls_view(calls@);
                calls.push(call);
                assert(tool_calls_view(calls@) =~= had.push(started_call(*e)));
            },
            None => {},
        }
        self.messages.push(last);
        assert(messages_view(self.messages@) =~= (if before.last().role == Role::Assistant {
            with_last(
                before,
                MessageView {
                    tool_calls: Some(calls_of(before.last().tool_calls).push(started_call(*e))),
                    ..before.last()
                },
            )
        } else {
            before
        }));
    }

    /// Appends `delta` to the arguments of the last call of the last
    /// message. Says whether there was such a call.
    fn append_arguments(&mut self, delta: &str) -> (r: bool)
        requires
            old(self).messages@.len() > 0,
        ensures
            final(self).settled() == old(self).settled(),
            r == (old(self)@.messages.last().role == Role::Assistant && calls_of(
                old(self)@.messages.last().tool_calls,
            ).len() > 0),
            final(self)@ == (EngineView {
                messages: {
                    let ms = old(self)@.messages;
                    let calls = calls_of(ms.last().tool_calls);
                    if ms.last().role != Role::Assistant {
                        ms
                    } else if calls.len() > 0 {
                        with_last(
                            ms,
                            MessageView {
                                tool_calls: Some(
                                    calls.drop_last().push(
                                        with_more_arguments(calls.last(), delta@),
                                    ),
                                ),
                                ..ms.last()
                            },
                        )
                    } else {
                        with_last(ms, MessageView { tool_calls: Some(Seq::empty()), ..ms.last() })
                    }
                },
                ..old(self)@
            }),
    {
        let ghost before = messages_view(self.messages@);
        let mut last = self.messages.pop().unwrap();
        let mut appended = false;
        match last.tool_calls_mut() {
            Some(calls) => {
                let ghost had = tool_calls_view(calls@);
                if calls.len() > 0 {
                    let mut call = calls.pop().unwrap();
                    call.function.arguments.append(delta);
                    calls.push(call);
                    appended = true;
                    assert(tool_calls_view(calls@) =~= had.drop_last().push(
                        with_more_arguments(had.last(), delta@),
                    ));
                } else {
                    assert(tool_calls_view(calls@) =~= Seq::<ToolCallView>::empty());
                }
            },
            None => {},
        }
        self.messages.push(last);
        assert(messages_view(self.messages@) =~= ({
            let ms = before;
            let calls = calls_of(ms.last().tool_calls);
            if ms.last().role != Role::Assistant {
                ms
            } else if calls.len() > 0 {
                with_last(
                    ms,
                    MessageView {
                        tool_calls: Some(
                            calls.drop_last().push(with_more_arguments(calls.last(), delta@)),
                        ),
                        ..ms.last()
                    },
                )
            } else {
                with_last(ms, MessageView { tool_calls: Some(Seq::empty()), ..ms.last() })
            }
        }));
        appended
    }

    /// Folds one event into the conversation, and gives the change that
    /// it made.
    ///
    /// The messages, the state and the result follow the rules of the
    /// fold (see [`messages_after`], [`state_after_event`] and
    /// [`result_after`]); the change carries the messages and the state
    /// where the event touches them. What the subscribers know of stays as
    /// it was until the change is applied. A state delta that is no patch
    /// document fails with a serialization error, one that does not apply
    /// with an execution error; the conversation then stays as it was.
    pub fn handle_event(&mut self, event: &Event) -> (r: Result<AgentStateMutation, AgentError>)
        ensures
            final(self).settled() == old(self).settled(),
            r.is_ok() == state_after_event(old(self)@.state, *event).is_some(),
            r matches Ok(change) ==> exists|fresh: IdModel|
                fresh.raw.is_none() && #[trigger] folded(
                    old(self)@,
                    *event,
                    fresh,
                    final(self)@,
                    change@,
                ),
            r matches Err(e) ==> {
                &&& final(self)@ == old(self)@
                &&& event matches Event::StateDelta(x)
                &&& (e is SerializationError) == patch_parsed(json_texts(x.delta@)).is_none()
                &&& (e is ExecutionError) == patch_parsed(json_texts(x.delta@)).is_some()
                &&& e matches AgentError::ExecutionError { message } ==> exists|reason: Seq<char>|
                    message@ == "Failed to apply state patch: "@ + reason
            },
    {
        let mut change = AgentStateMutation::default();
        let ghost before = self@;
        let ghost mut fresh = IdModel { uuid: 0, raw: None };
        match event {
            Event::TextMessageStart(e) => {
                let message = Message::Assistant {
                    id: e.message_id.clone(),
                    content: Some(String::new()),
                    name: None,
                    tool_calls: None,
                };
                assert(message@ == started_message(e.message_id@));
                self.messages.push(message);
                assert(messages_view(self.messages@) =~= before.messages.push(
                    started_message(e.message_id@),
                ));
                change.messages = Some(clone_messages(&self.messages));
            },
            Event::TextMessageContent(e) => {
                if self.messages.len() > 0 {
                    self.append_text(e.delta.as_str());
                    change.messages = Some(clone_messages(&self.messages));
                }
            },
            Event::ToolCallStart(e) => {
                let n = self.messages.len();
                let to_last = n > 0 && match &e.parent_message_id {
                    Some(p) => *p == *self.messages[n - 1].id(),
                    None => false,
                };
                assert(to_last == (before.messages.len() > 0 && names(
                    e.parent_message_id,
                    before.messages.last().id,
                )));
                if to_last {
                    self.append_call(e);
                } else {
                    let id = match &e.parent_message_id {
                        Some(p) => p.clone(),
                        None => {
                            let made = MessageId::random();
                            proof {
                                fresh = made@;
                            }
                            made
                        },
                    };
                    let message = Message::Assistant {
                        id,
                        content: None,
                        name: None,
                        tool_calls: None,
                    };
                    self.messages.push(message);
                    assert(messages_view(self.messages@) =~= before.messages.push(
                        bare_message(
                            match e.parent_message_id {
                                Some(p) => p@,
                                None => fresh,
                            },
                        ),
                    ));
                }
                change.messages = Some(clone_messages(&self.messages));
            },
            Event::ToolCallArgs(e) => {
                if self.messages.len() > 0 {
                    let appended = self.append_arguments(e.delta.as_str());
                    if appended {
                        change.messages = Some(clone_messages(&self.messages));
                    }
                }
            },
            Event::StateSnapshot(e) => {
                self.state = e.snapshot.clone();
                change.state = Some(self.state.clone());
            },
            Event::StateDelta(e) => {
                let ops = match parse_patch(&e.delta) {
                    Ok(ops) => ops,
                    Err(message) => {
                        return Err(AgentError::SerializationError { message });
                    },
                };
                let patched = match patch_document(&self.state, &ops) {
                    Ok(patched) => patched,
                    Err(reason) => {
                        let message = "Failed to apply state patch: ".to_owned().concat(
                            reason.as_str(),
                        );
                        return Err(AgentError::ExecutionError { message });
                    },
                };
                self.state = patched;
                change.state = Some(self.state.clone());
            },
            Event::RunFinished(e) => {
                self.result = match &e.result {
                    Some(r) => r.clone(),
                    None => json_null(),
                };
            },
            _ => {},
        }
        assert(folded(before, *event, fresh, self@, change@));
        Ok(change)
    }
}


/// The conversation after a subscriber's change was taken over: its
/// messages and its state replace those of the engine, each where the
/// change has one.
pub open spec fn updated(engine: EngineView, change: MutationView) -> EngineView {
    EngineView {
        messages: match change.messages {
            Some(ms) => ms,
            None => engine.messages,
        },
        state: match change.state {
            Some(s) => s,
            None => engine.state,
        },
        result: engine.result,
    }
}

/// The change of an event so far, after a subscriber's change was merged
/// into it: what the subscriber set overrides what was there.
pub open spec fn merged(current: MutationView, change: MutationView) -> MutationView {
    MutationView {
        messages: match change.messages {
            Some(ms) => Some(ms),
            None => current.messages,
        },
        state: match change.state {
            Some(s) => Some(s),
            None => current.state,
        },
        stop_propagation: current.stop_propagation,
    }
}

/// The UUIDs of the messages `ms`, in order.
pub open spec fn uuids(ms: Seq<MessageView>) -> Seq<u128> {
    ms.map_values(|m: MessageView| m.id.uuid)
}

/// Whether the identifier `id` is among `ids`: identifiers are the same
/// where their UUIDs are.
pub open spec fn known(ids: Seq<u128>, id: IdModel) -> bool {
    ids.contains(id.uuid)
}

/// The messages of `ms` whose identifier is not among `ids`, in the order
/// in which they stand in `ms`.
pub open spec fn unknown(ms: Seq<MessageView>, ids: Seq<u128>) -> Seq<MessageView>
    decreases ms.len(),
{
    if ms.len() == 0 {
        Seq::empty()
    } else if known(ids, ms.last().id) {
        unknown(ms.drop_last(), ids)
    } else {
        unknown(ms.drop_last(), ids).push(ms.last())
    }
}

/// The messages of `ms` whose identifier is not among those of `old`, in
/// the order in which they stand in `ms`.
pub open spec fn not_known(ms: Seq<MessageView>, old: Seq<MessageView>) -> Seq<MessageView> {
    unknown(ms, uuids(old))
}

/// Something to tell every subscriber, in the order in which they were
/// subscribed.
#[derive(Debug)]
pub enum Notification {
    /// A message is new to the conversation.
    NewMessage(Message),
    /// A new assistant message carries this tool call.
    NewToolCall(ToolCall),
    /// The messages have changed.
    MessagesChanged,
    /// The state has changed.
    StateChanged,
}

/// A notification, as plain values.
pub enum NotificationView {
    NewMessage(MessageView),
    NewToolCall(ToolCallView),
    MessagesChanged,
    StateChanged,
}

impl View for Notification {
    type V = NotificationView;

    open spec fn view(&self) -> NotificationView {
        match *self {
            Notification::NewMessage(m) => NotificationView::NewMessage(m@),
            Notification::NewToolCall(c) => NotificationView::NewToolCall(c@),
            Notification::MessagesChanged => NotificationView::MessagesChanged,
            Notification::StateChanged => NotificationView::StateChanged,
        }
    }
}

/// A list of notifications, as plain values.
pub open spec fn notifications_view(ns: Seq<Notification>) -> Seq<NotificationView> {
    ns.map_values(|n: Notification| n@)
}

/// The notifications of the tool calls `calls`, in order.
pub open spec fn call_notices(calls: Seq<ToolCallView>) -> Seq<NotificationView> {
    calls.map_values(|c: ToolCallView| NotificationView::NewToolCall(c))
}

/// The notifications of one new message: the message, then each tool call
/// of an assistant message.
pub open spec fn message_notices(m: MessageView) -> Seq<NotificationView> {
    seq![NotificationView::NewMessage(m)] + (if m.role == Role::Assistant {
        call_notices(calls_of(m.tool_calls))
    } else {
        Seq::empty()
    })
}

/// The notifications of the new messages `ms`, message by message.
pub open spec fn new_message_notices(ms: Seq<MessageView>) -> Seq<NotificationView>
    decreases ms.len(),
{
    if ms.len() == 0 {
        Seq::empty()
    } else {
        new_message_notices(ms.drop_last()) + message_notices(ms.last())
    }
}

/// What applying the change `change` tells the subscribers, who know of
/// the messages with the UUIDs `settled`: where it carries messages, each
/// message that is new to them, with its tool calls, and that the messages
/// changed; where it carries a state, that the state changed.
pub open spec fn notices(settled: Seq<u128>, change: MutationView) -> Seq<NotificationView> {
    (match change.messages {
        Some(ms) => new_message_notices(unknown(ms, settled)).push(
            NotificationView::MessagesChanged,
        ),
        None => Seq::empty(),
    }) + (match change.state {
        Some(_) => seq![NotificationView::StateChanged],
        None => Seq::empty(),
    })
}

/// The UUIDs of the messages `ms`, in order.
fn ids_of(ms: &Vec<Message>) -> (r: Vec<u128>)
    ensures
        r@ == uuids(messages_view(ms@)),
{
    let mut out: Vec<u128> = Vec::new();
    let mut i: usize = 0;
    while i < ms.len()
        invariant
            i <= ms.len(),
            out@.len() == i,
            forall|k: int| 0 <= k < i ==> out@[k] == ms@[k]@.id.uuid,
        decreases ms.len() - i,
    {
        out.push(ms[i].id().as_uuid());
        i += 1;
    }
    assert(out@ =~= uuids(messages_view(ms@)));
    out
}

/// Whether the identifier of `m` is among `ids`.
fn is_known(ids: &Vec<u128>, m: &Message) -> (r: bool)
    ensures
        r == known(ids@, m@.id),
{
    let wanted = m.id().as_uuid();
    let mut i: usize = 0;
    while i < ids.len()
        invariant
            i <= ids.len(),
            wanted == m@.id.uuid,
            forall|k: int| 0 <= k < i ==> ids@[k] != wanted,
        decreases ids.len() - i,
    {
        if ids[i] == wanted {
            return true;
        }
        i += 1;
    }
    false
}

/// The messages of `ms` whose identifier is not among `ids`, in the order
/// in which they stand in `ms`.
fn unknown_of(ms: &Vec<Message>, ids: &Vec<u128>) -> (r: Vec<Message>)
    ensures
        messages_view(r@) == unknown(messages_view(ms@), ids@),
{
    let mut out: Vec<Message> = Vec::new();
    let mut i: usize = 0;
    assert(messages_view(ms@).subrange(0, 0) =~= Seq::<MessageView>::empty());
    assert(messages_view(out@) =~= Seq::<MessageView>::empty());
    while i < ms.len()
        invariant
            i <= ms.len(),
            messages_view(out@) == unknown(messages_view(ms@).subrange(0, i as int), ids@),
        decreases ms.len() - i,
    {
        let ghost had = messages_view(out@);
        let ghost upto = messages_view(ms@).subrange(0, i + 1);
        proof {
            assert(upto.drop_last() =~= messages_view(ms@).subrange(0, i as int));
            assert(upto.last() == ms@[i as int]@);
        }
        if !is_known(ids, &ms[i]) {
            out.push(ms[i].clone());
            assert(messages_view(out@) =~= had.push(ms@[i as int]@));
        }
        i += 1;
    }
    assert(messages_view(ms@).subrange(0, ms@.len() as int) =~= messages_view(ms@));
    out
}

/// The messages of `ms` whose identifier is not among those of `old`, in
/// the order in which they stand in `ms`.
pub fn new_messages(ms: &Vec<Message>, old: &Vec<Message>) -> (r: Vec<Message>)
    ensures
        messages_view(r@) == not_known(messages_view(ms@), messages_view(old@)),
{
    let ids = ids_of(old);
    unknown_of(ms, &ids)
}

impl EventHandler {
    /// Takes over a subscriber's change: its messages and its state
    /// replace those of the engine, each where the change has one.
    pub fn update_from_mutation(&mut self, mutation: &AgentStateMutation)
        ensures
            final(self)@ == updated(old(self)@, mutation@),
            final(self).settled() == old(self).settled(),
    {
        match &mutation.messages {
            Some(ms) => {
                self.messages = clone_messages(ms);
            },
            None => {},
        }
        match &mutation.state {
            Some(s) => {
                self.state = s.clone();
            },
            None => {},
        }
    }

    /// Takes over a subscriber's change and merges it into the change of
    /// the event so far.
    pub fn process_mutation(
        &mut self,
        mutation: AgentStateMutation,
        current_mutation: &mut AgentStateMutation,
    )
        ensures
            final(self)@ == updated(old(self)@, mutation@),
            final(self).settled() == old(self).settled(),
            final(current_mutation)@ == merged(old(current_mutation)@, mutation@),
    {
        if mutation.messages.is_some() || mutation.state.is_some() {
            self.update_from_mutation(&mutation);
            let AgentStateMutation { messages, state, stop_propagation: _ } = mutation;
            if messages.is_some() {
                current_mutation.messages = messages;
            }
            if state.is_some() {
                current_mutation.state = state;
            }
        }
    }

    /// Deals with what one subscriber answered to an event.
    ///
    /// The answer is taken over by the engine. Where it stops the
    /// propagation, it is handed back as the change of the event, and no
    /// further subscriber is to be asked; otherwise it is merged into the
    /// change so far and `None` is given.
    pub fn absorb_reply(
        &mut self,
        reply: AgentStateMutation,
        current_mutation: &mut AgentStateMutation,
    ) -> (r: Option<AgentStateMutation>)
        ensures
            final(self)@ == updated(old(self)@, reply@),
            final(self).settled() == old(self).settled(),
            r.is_some() == reply@.stop_propagation,
            r matches Some(last) ==> last@ == reply@ && final(current_mutation)@ == old(
                current_mutation,
            )@,
            r.is_none() ==> final(current_mutation)@ == merged(old(current_mutation)@, reply@),
    {
        if !reply.stop_propagation {
            self.process_mutation(reply, current_mutation);
            None
        } else {
            self.update_from_mutation(&reply);
            Some(reply)
        }
    }

    /// Applies the change of an event to the conversation, and gives what
    /// to tell the subscribers, in order.
    ///
    /// Where the change carries messages they become the messages of the
    /// conversation; each that the subscribers did not know of, because it
    /// was not there before the event, is announced, with its tool calls,
    /// and then that the messages changed. Where it carries a state it
    /// becomes the state, and that is announced. From then on the
    /// subscribers know of the messages of the conversation.
    pub fn apply_mutation(&mut self, mutation: AgentStateMutation) -> (r: Vec<Notification>)
        ensures
            final(self)@ == updated(old(self)@, mutation@),
            notifications_view(r@) == notices(old(self).settled(), mutation@),
            final(self).settled() == uuids(final(self)@.messages),
    {
        let mut out: Vec<Notification> = Vec::new();
        let ghost before = self@;
        assert(notifications_view(out@) =~= Seq::<NotificationView>::empty());
        let AgentStateMutation { messages, state, stop_propagation: _ } = mutation;
        match messages {
            Some(ms) => {
                let fresh = unknown_of(&ms, &self.settled);
                self.messages = ms;
                let mut i: usize = 0;
                assert(messages_view(fresh@).subrange(0, 0) =~= Seq::<MessageView>::empty());
                while i < fresh.len()
                    invariant
                        i <= fresh.len(),
                        notifications_view(out@) == new_message_notices(
                            messages_view(fresh@).subrange(0, i as int),
                        ),
                    decreases fresh.len() - i,
                {
                    let ghost had = notifications_view(out@);
                    let ghost upto = messages_view(fresh@).subrange(0, i + 1);
                    proof {
                        assert(upto.drop_last() =~= messages_view(fresh@).subrange(0, i as int));
                        assert(upto.last() == fresh@[i as int]@);
                    }
                    let message = &fresh[i];
                    out.push(Notification::NewMessage(message.clone()));
                    assert(notifications_view(out@) =~= had + seq![
                        NotificationView::NewMessage(message@),
                    ]);
                    match message {
                        Message::Assistant { tool_calls: Some(calls), .. } => {
                            let mut j: usize = 0;
                            let ghost all = tool_calls_view(calls@);
                            while j < calls.len()
                                invariant
                                    j <= calls.len(),
                                    all == tool_calls_view(calls@),
                                    notifications_view(out@) == had + seq![
                                        NotificationView::NewMessage(message@),
                                    ] + call_notices(all.subrange(0, j as int)),
                                decreases calls.len() - j,
                            {
                                let ghost so_far = notifications_view(out@);
                                out.push(Notification::NewToolCall(calls[j].clone()));
                                assert(notifications_view(out@) =~= so_far.push(
                                    NotificationView::NewToolCall(all[j as int]),
                                ));
                                assert(call_notices(all.subrange(0, j + 1)) =~= call_notices(
                                    all.subrange(0, j as int),
                                ).push(NotificationView::NewToolCall(all[j as int])));
                                j += 1;
                            }
                            assert(all.subrange(0, calls@.len() as int) =~= all);
                        },
                        _ => {
                            assert(call_notices(calls_of(message@.tool_calls)) =~= Seq::<
                                NotificationView,
                            >::empty());
                        },
                    }
                    assert(notifications_view(out@) =~= had + message_notices(message@));
                    i += 1;
                }
                assert(messages_view(fresh@).subrange(0, fresh@.len() as int) =~= messages_view(
                    fresh@,
                ));
                let ghost had = notifications_view(out@);
                out.push(Notification::MessagesChanged);
                assert(notifications_view(out@) =~= had.push(NotificationView::MessagesChanged));
            },
            None => {},
        }
        let ghost had = notifications_view(out@);
        match state {
            Some(s) => {
                self.state = s;
                out.push(Notification::StateChanged);
                assert(notifications_view(out@) =~= had + seq![NotificationView::StateChanged]);
            },
            None => {
                assert(had + Seq::<NotificationView>::empty() =~= had);
            },
        }
        self.settled = ids_of(&self.messages);
        out
    }
}


/// The text of the message that is streaming: the text of the last
/// message, empty where it has none or where there is no message.
pub open spec fn streaming_text(ms: Seq<MessageView>) -> Seq<char> {
    if ms.len() > 0 {
        text_of(ms.last().content)
    } else {
        Seq::empty()
    }
}

/// The tool call that is streaming: the last call of the last message, if
/// there is one.
pub open spec fn streaming_call(ms: Seq<MessageView>) -> Option<ToolCallView> {
    if ms.len() > 0 && calls_of(ms.last().tool_calls).len() > 0 {
        Some(calls_of(ms.last().tool_calls).last())
    } else {
        None
    }
}

/// The arguments of a tool call as far as they can be read: the JSON object
/// that the text parses to, and the empty object for any other text. Text
/// that is no object yet is never an error.
pub fn parse_partial_args(arguments: &str) -> (r: JsonValue)
    ensures
        json_text(r) == (match json_object_parsed(arguments@) {
            Some(object) => object,
            None => "{}"@,
        }),
{
    match parse_json_object(arguments) {
        Some(object) => object,
        None => json_empty_object(),
    }
}

impl EventHandler {
    /// The text of the message that is streaming, for the subscribers of
    /// text content and text end events.
    pub fn text_message_buffer(&self) -> (r: String)
        ensures
            r@ == streaming_text(self@.messages),
    {
        let n = self.messages.len();
        if n == 0 {
            return String::new();
        }
        match self.messages[n - 1].content() {
            Some(text) => text.to_owned(),
            None => String::new(),
        }
    }

    /// The arguments so far and the name of the tool call that is
    /// streaming, for the subscribers of tool call argument and end
    /// events; both empty where no call is streaming.
    pub fn tool_call_buffer(&self) -> (r: (String, String))
        ensures
            match streaming_call(self@.messages) {
                Some(call) => r.0@ == call.function.arguments && r.1@ == call.function.name,
                None => r.0@.len() == 0 && r.1@.len() == 0,
            },
    {
        let n = self.messages.len();
        if n == 0 {
            return (String::new(), String::new());
        }
        match self.messages[n - 1].tool_calls() {
            Some(calls) => {
                let k = calls.len();
                if k == 0 {
                    (String::new(), String::new())
                } else {
                    let call = &calls[k - 1];
                    assert(tool_calls_view(calls@).last() == call@);
                    (call.function.arguments.clone(), call.function.name.clone())
                }
            },
            None => (String::new(), String::new()),
        }
    }
}

} // verus!
