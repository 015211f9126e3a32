//! Conversation messages and the tool calls they carry.

use vstd::prelude::*;
use crate::ids::{IdModel, MessageId, ToolCallId};
use crate::json::JsonValue;

verus! {

/// The name and the argument text of a called function. The arguments are
/// JSON text that accumulates while the call streams in.
#[derive(Debug, PartialEq, Eq)]
pub struct FunctionCall {
    pub name: String,
    pub arguments: String,
}

/// A called function, as plain values.
pub struct FunctionCallView {
    pub name: Seq<char>,
    pub arguments: Seq<char>,
}

impl View for FunctionCall {
    type V = FunctionCallView;

    open spec fn view(&self) -> FunctionCallView {
        FunctionCallView { name: self.name@, arguments: self.arguments@ }
    }
}

impl Clone for FunctionCall {
    fn clone(&self) -> (r: Self)
        ensures
            r == *self,
    {
        FunctionCall { name: self.name.clone(), arguments: self.arguments.clone() }
    }
}

/// Who a message is from.
#[derive(Debug, Clone, Copy, PartialEq, Eq, Structural)]
pub enum Role {
    Developer,
    System,
    Assistant,
    User,
    Tool,
}

impl Role {
    pub fn developer() -> (r: Self)
        ensures
            r == Role::Developer,
    {
        Role::Developer
    }

    pub fn system() -> (r: Self)
        ensures
            r == Role::System,
    {
        Role::System
    }

    pub fn assistant() -> (r: Self)
        ensures
            r == Role::Assistant,
    {
        Role::Assistant
    }

    pub fn user() -> (r: Self)
        ensures
            r == Role::User,
    {
        Role::User
    }

    pub fn tool() -> (r: Self)
        ensures
            r == Role::Tool,
    {
        Role::Tool
    }
}

/// A call of a tool, made by an assistant message.
#[derive(Debug, PartialEq, Eq)]
pub struct ToolCall {
    pub id: ToolCallId,
    /// Always `"function"`.
    pub call_type: String,
    pub function: FunctionCall,
}

/// A tool call, as plain values.
pub struct ToolCallView {
    pub id: Seq<char>,
    pub call_type: Seq<char>,
    pub function: FunctionCallView,
}

impl View for ToolCall {
    type V = ToolCallView;

    open spec fn view(&self) -> ToolCallView {
        ToolCallView { id: self.id@, call_type: self.call_type@, function: self.function@ }
    }
}

/// A list of tool calls, as plain values.
pub open spec fn tool_calls_view(calls: Seq<ToolCall>) -> Seq<ToolCallView> {
    calls.map_values(|c: ToolCall| c@)
}

impl Clone for ToolCall {
    fn clone(&self) -> (r: Self)
        ensures
            r@ == self@,
    {
        ToolCall {
            id: self.id.clone(),
            call_type: self.call_type.clone(),
            function: self.function.clone(),
        }
    }
}

impl ToolCall {
    /// A call of `function` with the identifier `id`; its type is
    /// `"function"`.
    pub fn new(id: ToolCallId, function: FunctionCall) -> (r: Self)
        ensures
            r@ == (ToolCallView { id: id@, call_type: "function"@, function: function@ }),
    {
        ToolCall { id, call_type: "function".to_owned(), function }
    }
}

/// A copy of a list of tool calls.
pub fn clone_tool_calls(calls: &Vec<ToolCall>) -> (r: Vec<ToolCall>)
    ensures
        tool_calls_view(r@) == tool_calls_view(calls@),
{
    let mut out: Vec<ToolCall> = Vec::new();
    let mut i: usize = 0;
    while i < calls.len()
        invariant
            i <= calls.len(),
            out@.len() == i,
            forall|k: int| 0 <= k < i ==> out@[k]@ == calls@[k]@,
        decreases calls.len() - i,
    {
        out.push(calls[i].clone());
        i += 1;
    }
    assert(tool_calls_view(out@) =~= tool_calls_view(calls@));
    out
}

/// The definition of a tool that an agent may call.
#[derive(Debug, PartialEq)]
pub struct Tool {
    pub name: String,
    pub description: String,
    /// A JSON Schema of the parameters.
    pub parameters: JsonValue,
}

impl Clone for Tool {
    fn clone(&self) -> (r: Self)
        ensures
            r == *self,
    {
        Tool {
            name: self.name.clone(),
            description: self.description.clone(),
            parameters: self.parameters.clone(),
        }
    }
}

impl Tool {
    pub fn new(name: String, description: String, parameters: JsonValue) -> (r: Self)
        ensures
            r.name == name,
            r.description == description,
            r.parameters == parameters,
    {
        Tool { name, description, parameters }
    }
}

/// A piece of context handed to the agent with a run.
#[derive(Debug, PartialEq, Eq)]
pub struct Context {
    pub description: String,
    pub value: String,
}

impl Clone for Context {
    fn clone(&self) -> (r: Self)
        ensures
            r == *self,
    {
        Context { description: self.description.clone(), value: self.value.clone() }
    }
}

impl Context {
    pub fn new(description: String, value: String) -> (r: Self)
        ensures
            r.description == description,
            r.value == value,
    {
        Context { description, value }
    }
}


/// A message of the conversation, by role.
#[derive(Debug, PartialEq)]
#[allow(inconsistent_fields)]
pub enum Message {
    Developer { id: MessageId, content: String, name: Option<String> },
    System { id: MessageId, content: String, name: Option<String> },
    Assistant {
        id: MessageId,
        content: Option<String>,
        name: Option<String>,
        tool_calls: Option<Vec<ToolCall>>,
    },
    User { id: MessageId, content: String, name: Option<String> },
    Tool { id: MessageId, content: String, tool_call_id: ToolCallId, error: Option<String> },
}

/// A message, as plain values. A field that the role does not have is
/// `None`.
pub struct MessageView {
    pub role: Role,
    pub id: IdModel,
    pub content: Option<Seq<char>>,
    pub name: Option<Seq<char>>,
    pub tool_calls: Option<Seq<ToolCallView>>,
    pub tool_call_id: Option<Seq<char>>,
    pub error: Option<Seq<char>>,
}

/// An optional string, as plain values.
pub open spec fn opt_text(s: Option<String>) -> Option<Seq<char>> {
    match s {
        Some(t) => Some(t@),
        None => None,
    }
}

impl View for Message {
    type V = MessageView;

    open spec fn view(&self) -> MessageView {
        match *self {
            Message::Developer { id, content, name } => MessageView {
                role: Role::Developer,
                id: id@,
                content: Some(content@),
                name: opt_text(name),
                tool_calls: None,
                tool_call_id: None,
                error: None,
            },
            Message::System { id, content, name } => MessageView {
                role: Role::System,
                id: id@,
                content: Some(content@),
                name: opt_text(name),
                tool_calls: None,
                tool_call_id: None,
                error: None,
            },
            Message::Assistant { id, content, name, tool_calls } => MessageView {
                role: Role::Assistant,
                id: id@,
                content: opt_text(content),
                name: opt_text(name),
                tool_calls: match tool_calls {
                    Some(calls) => Some(tool_calls_view(calls@)),
                    None => None,
                },
                tool_call_id: None,
                error: None,
            },
            Message::User { id, content, name } => MessageView {
                role: Role::User,
                id: id@,
                content: Some(content@),
                name: opt_text(name),
                tool_calls: None,
                tool_call_id: None,
                error: None,
            },
            Message::Tool { id, content, tool_call_id, error } => MessageView {
                role: Role::Tool,
                id: id@,
                content: Some(content@),
                name: None,
                tool_calls: None,
                tool_call_id: Some(tool_call_id@),
                error: opt_text(error),
            },
        }
    }
}

/// A list of messages, as plain values.
pub open spec fn messages_view(messages: Seq<Message>) -> Seq<MessageView> {
    messages.map_values(|m: Message| m@)
}

/// A copy of an optional string.
pub fn clone_opt_string(s: &Option<String>) -> (r: Option<String>)
    ensures
        r == *s,
{
    match s {
        Some(t) => Some(t.clone()),
        None => None,
    }
}

impl Clone for Message {
    fn clone(&self) -> (r: Self)
        ensures
            r@ == self@,
    {
        match self {
            Message::Developer { id, content, name } => Message::Developer {
                id: id.clone(),
                content: content.clone(),
                name: clone_opt_string(name),
            },
            Message::System { id, content, name } => Message::System {
                id: id.clone(),
                content: content.clone(),
                name: clone_opt_string(name),
            },
            Message::Assistant { id, content, name, tool_calls } => {
                let calls = match tool_calls {
                    Some(c) => Some(clone_tool_calls(c)),
                    None => None,
                };
                Message::Assistant {
                    id: id.clone(),
                    content: clone_opt_string(content),
                    name: clone_opt_string(name),
                    tool_calls: calls,
                }
            },
            Message::User { id, content, name } => Message::User {
                id: id.clone(),
                content: content.clone(),
                name: clone_opt_string(name),
            },
            Message::Tool { id, content, tool_call_id, error } => Message::Tool {
                id: id.clone(),
                content: content.clone(),
                tool_call_id: tool_call_id.clone(),
                error: clone_opt_string(error),
            },
        }
    }
}

impl Message {
    /// The identifier of the message, in specifications.
    pub open spec fn spec_id(&self) -> MessageId {
        match *self {
            Message::Developer { id, .. } => id,
            Message::System { id, .. } => id,
            Message::Assistant { id, .. } => id,
            Message::User { id, .. } => id,
            Message::Tool { id, .. } => id,
        }
    }

    /// A message of the given role. An assistant message starts without
    /// text (`content` is not used); a tool message answers a fresh random
    /// tool call.
    pub fn new(role: Role, id: MessageId, content: String) -> (r: Self)
        ensures
            r@.role == role,
            r@.id == id@,
            r@.content == (if role == Role::Assistant {
                None
            } else {
                Some(content@)
            }),
            r@.name.is_none(),
            r@.tool_calls.is_none(),
            r@.error.is_none(),
            r@.tool_call_id.is_some() == (role == Role::Tool),
    {
        match role {
            Role::Developer => Message::Developer { id, content, name: None },
            Role::System => Message::System { id, content, name: None },
            Role::Assistant => Message::Assistant {
                id,
                content: None,
                name: None,
                tool_calls: None,
            },
            Role::User => Message::User { id, content, name: None },
            Role::Tool => Message::Tool {
                id,
                content,
                tool_call_id: ToolCallId::random(),
                error: None,
            },
        }
    }

    /// The identifier of the message.
    pub fn id(&self) -> (r: &MessageId)
        ensures
            *r == self.spec_id(),
            r@ == self@.id,
    {
        match self {
            Message::Developer { id, .. } => id,
            Message::System { id, .. } => id,
            Message::Assistant { id, .. } => id,
            Message::User { id, .. } => id,
            Message::Tool { id, .. } => id,
        }
    }

    /// The identifier of the message, for writing. Whatever is written
    /// becomes the identifier of the message; nothing else of the message
    /// changes.
    pub fn id_mut(&mut self) -> (r: &mut MessageId)
        ensures
            *r == old(self).spec_id(),
            final(self)@ == (MessageView { id: final(r)@, ..old(self)@ }),
    {
        match self {
            Message::Developer { id, .. } => id,
            Message::System { id, .. } => id,
            Message::Assistant { id, .. } => id,
            Message::User { id, .. } => id,
            Message::Tool { id, .. } => id,
        }
    }

    /// The role of the message.
    pub fn role(&self) -> (r: Role)
        ensures
            r == self@.role,
    {
        match self {
            Message::Developer { .. } => Role::Developer,
            Message::System { .. } => Role::System,
            Message::Assistant { .. } => Role::Assistant,
            Message::User { .. } => Role::User,
            Message::Tool { .. } => Role::Tool,
        }
    }

    /// The text of the message: absent only on an assistant message that
    /// has none.
    pub fn content(&self) -> (r: Option<&str>)
        ensures
            r.is_some() == self@.content.is_some(),
            r.is_some() ==> r.unwrap()@ == self@.content.unwrap(),
    {
        match self {
            Message::Developer { content, .. } => Some(content.as_str()),
            Message::System { content, .. } => Some(content.as_str()),
            Message::User { content, .. } => Some(content.as_str()),
            Message::Tool { content, .. } => Some(content.as_str()),
            Message::Assistant { content, .. } => match content {
                Some(c) => Some(c.as_str()),
                None => None,
            },
        }
    }

    /// The tool calls of the message: present only on an assistant message
    /// that has a list.
    pub fn tool_calls(&self) -> (r: Option<&Vec<ToolCall>>)
        ensures
            r.is_some() == self@.tool_calls.is_some(),
            r.is_some() ==> tool_calls_view(r.unwrap()@) == self@.tool_calls.unwrap(),
    {
        match self {
            Message::Assistant { tool_calls: Some(calls), .. } => Some(calls),
            _ => None,
        }
    }
}

impl Message {
    /// The text of the message, for writing. An assistant message without
    /// text gets the empty text first, so every message hands out its text.
    /// Whatever is written becomes the text of the message; nothing else
    /// of the message changes.
    pub fn content_mut(&mut self) -> (r: Option<&mut String>)
        ensures
            r.is_some(),
            r.unwrap()@ == (match old(self)@.content {
                Some(c) => c,
                None => Seq::<char>::empty(),
            }),
            final(self)@ == (MessageView {
                content: Some(final(r.unwrap())@),
                ..old(self)@
            }),
    {
        match self {
            Message::Developer { content, .. } => Some(content),
            Message::System { content, .. } => Some(content),
            Message::User { content, .. } => Some(content),
            Message::Tool { content, .. } => Some(content),
            Message::Assistant { content, .. } => {
                if content.is_none() {
                    *content = Some(String::new());
                }
                content.as_mut()
            },
        }
    }

    /// The tool calls of an assistant message, for writing; `None` on any
    /// other message. An assistant message without a list gets the empty
    /// list first. Whatever is written becomes the list of the message;
    /// nothing else of the message changes.
    pub fn tool_calls_mut(&mut self) -> (r: Option<&mut Vec<ToolCall>>)
        ensures
            r.is_some() == (old(self)@.role == Role::Assistant),
            r.is_none() ==> final(self)@ == old(self)@,
            r.is_some() ==> tool_calls_view(r.unwrap()@) == (match old(self)@.tool_calls {
                Some(calls) => calls,
                None => Seq::<ToolCallView>::empty(),
            }),
            r.is_some() ==> final(self)@ == (MessageView {
                tool_calls: Some(tool_calls_view(final(r.unwrap())@)),
                ..old(self)@
            }),
    {
        match self {
            Message::Assistant { tool_calls, .. } => {
                if tool_calls.is_none() {
                    *tool_calls = Some(Vec::new());
                }
                proof {
                    assert(tool_calls_view(Seq::<ToolCall>::empty()) =~= Seq::<ToolCallView>::empty());
                }
                tool_calls.as_mut()
            },
            _ => None,
        }
    }
}

/// A copy of a list of messages.
pub fn clone_messages(messages: &Vec<Message>) -> (r: Vec<Message>)
    ensures
        messages_view(r@) == messages_view(messages@),
{
    let mut out: Vec<Message> = Vec::new();
    let mut i: usize = 0;
    while i < messages.len()
        invariant
            i <= messages.len(),
            out@.len() == i,
            forall|k: int| 0 <= k < i ==> out@[k]@ == messages@[k]@,
        decreases messages.len() - i,
    {
        out.push(messages[i].clone());
        i += 1;
    }
    assert(messages_view(out@) =~= messages_view(messages@));
    out
}

/// A message from the developer of the agent.
#[derive(Debug, PartialEq)]
pub struct DeveloperMessage {
    pub id: MessageId,
    /// Always [`Role::Developer`].
    pub role: Role,
    pub content: String,
    pub name: Option<String>,
}

impl DeveloperMessage {
    pub fn new(id: MessageId, content: String) -> (r: Self)
        ensures
            r == (DeveloperMessage { id, role: Role::Developer, content, name: None }),
    {
        DeveloperMessage { id, role: Role::Developer, content, name: None }
    }

    pub fn with_name(self, name: String) -> (r: Self)
        ensures
            r == (DeveloperMessage { name: Some(name), ..self }),
    {
        let mut m = self;
        m.name = Some(name);
        m
    }
}

/// A message that sets the agent's instructions.
#[derive(Debug, PartialEq)]
pub struct SystemMessage {
    pub id: MessageId,
    /// Always [`Role::System`].
    pub role: Role,
    pub content: String,
    pub name: Option<String>,
}

impl SystemMessage {
    pub fn new(id: MessageId, content: String) -> (r: Self)
        ensures
            r == (SystemMessage { id, role: Role::System, content, name: None }),
    {
        SystemMessage { id, role: Role::System, content, name: None }
    }

    pub fn with_name(self, name: String) -> (r: Self)
        ensures
            r == (SystemMessage { name: Some(name), ..self }),
    {
        let mut m = self;
        m.name = Some(name);
        m
    }
}

/// A message from the assistant: text, tool calls, or both.
#[derive(Debug, PartialEq)]
pub struct AssistantMessage {
    pub id: MessageId,
    /// Always [`Role::Assistant`].
    pub role: Role,
    pub content: Option<String>,
    pub name: Option<String>,
    pub tool_calls: Option<Vec<ToolCall>>,
}

impl AssistantMessage {
    pub fn new(id: MessageId) -> (r: Self)
        ensures
            r == (AssistantMessage {
                id,
                role: Role::Assistant,
                content: None,
                name: None,
                tool_calls: None,
            }),
    {
        AssistantMessage { id, role: Role::Assistant, content: None, name: None, tool_calls: None }
    }

    pub fn with_content(self, content: String) -> (r: Self)
        ensures
            r == (AssistantMessage { content: Some(content), ..self }),
    {
        let mut m = self;
        m.content = Some(content);
        m
    }

    pub fn with_name(self, name: String) -> (r: Self)
        ensures
            r == (AssistantMessage { name: Some(name), ..self }),
    {
        let mut m = self;
        m.name = Some(name);
        m
    }

    pub fn with_tool_calls(self, tool_calls: Vec<ToolCall>) -> (r: Self)
        ensures
            r == (AssistantMessage { tool_calls: Some(tool_calls), ..self }),
    {
        let mut m = self;
        m.tool_calls = Some(tool_calls);
        m
    }
}

/// A message from the user.
#[derive(Debug, PartialEq)]
pub struct UserMessage {
    pub id: MessageId,
    /// Always [`Role::User`].
    pub role: Role,
    pub content: String,
    pub name: Option<String>,
}

impl UserMessage {
    pub fn new(id: MessageId, content: String) -> (r: Self)
        ensures
            r == (UserMessage { id, role: Role::User, content, name: None }),
    {
        UserMessage { id, role: Role::User, content, name: None }
    }

    pub fn with_name(self, name: String) -> (r: Self)
        ensures
            r == (UserMessage { name: Some(name), ..self }),
    {
        let mut m = self;
        m.name = Some(name);
        m
    }
}

/// The result of a tool call, as a message.
#[derive(Debug, PartialEq)]
pub struct ToolMessage {
    pub id: MessageId,
    pub content: String,
    /// Always [`Role::Tool`].
    pub role: Role,
    pub tool_call_id: ToolCallId,
    pub error: Option<String>,
}

impl ToolMessage {
    pub fn new(id: MessageId, content: String, tool_call_id: ToolCallId) -> (r: Self)
        ensures
            r == (ToolMessage { id, content, role: Role::Tool, tool_call_id, error: None }),
    {
        ToolMessage { id, content, role: Role::Tool, tool_call_id, error: None }
    }

    pub fn with_error(self, error: String) -> (r: Self)
        ensures
            r == (ToolMessage { error: Some(error), ..self }),
    {
        let mut m = self;
        m.error = Some(error);
        m
    }
}

/// A message with fields common to every role.
#[derive(Debug, PartialEq)]
pub struct BaseMessage {
    pub id: MessageId,
    pub role: Role,
    pub content: Option<String>,
    pub name: Option<String>,
}

} // verus!
