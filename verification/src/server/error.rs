//! The errors of the server side, each with its text.

use vstd::prelude::*;
use vstd::string::StringExecFns;
use crate::text::{decimal, decimal_string};

verus! {

/// What went wrong in the state manager.
#[derive(Debug, Clone, PartialEq, Eq)]
pub enum StateError {
    /// A JSON Patch operation failed.
    PatchFailed {
        /// The kind of the operation.
        op: String,
        /// The JSON pointer where it failed.
        path: String,
        /// Why it failed.
        reason: String,
    },
    /// The patch document is malformed.
    InvalidPatch {
        /// What is wrong with it.
        reason: String,
    },
    /// The lock of the state was poisoned by a panic in another thread.
    MutexPoisoned,
    /// A message that was referred to is not in the conversation.
    MessageNotFound {
        /// The identifier that was looked for.
        id: String,
    },
    /// A message with this identifier exists already.
    DuplicateMessage {
        /// The identifier that came twice.
        id: String,
    },
    /// A tool call that was referred to is not in its message.
    ToolCallNotFound {
        /// The identifier that was looked for.
        id: String,
        /// The message that was searched.
        message_id: String,
    },
    /// The state could not be written to JSON or read back.
    Serialization {
        /// Why not.
        reason: String,
    },
}

impl StateError {
    /// The text of the error, in specifications.
    pub open spec fn text(&self) -> Seq<char> {
        match *self {
            StateError::PatchFailed { op, path, reason } => "patch failed: "@ + op@ + " at '"@ + path@ + "' - "@ + reason@,
            StateError::InvalidPatch { reason } => "invalid patch document: "@ + reason@,
            StateError::MutexPoisoned => "state mutex poisoned - concurrent panic detected, state may be corrupted"@,
            StateError::MessageNotFound { id } => "message '"@ + id@ + "' not found in conversation state"@,
            StateError::DuplicateMessage { id } => "duplicate message id: '"@ + id@ + "' already exists"@,
            StateError::ToolCallNotFound { id, message_id } => "tool call '"@ + id@ + "' not found in message '"@ + message_id@ + "'"@,
            StateError::Serialization { reason } => "state serialization failed: "@ + reason@,
        }
    }

    /// The text of the error.
    pub fn to_string(&self) -> (r: String)
        ensures
            r@ == self.text(),
    {
        match self {
            StateError::PatchFailed { op, path, reason } => {
                let mut s = "patch failed: ".to_owned();
                s.append(op.as_str());
                s.append(" at '");
                s.append(path.as_str());
                s.append("' - ");
                s.append(reason.as_str());
                s
            },
            StateError::InvalidPatch { reason } => {
                let mut s = "invalid patch document: ".to_owned();
                s.append(reason.as_str());
                s
            },
            StateError::MutexPoisoned => {
                let mut s = "state mutex poisoned - concurrent panic detected, state may be corrupted".to_owned();
                s
            },
            StateError::MessageNotFound { id } => {
                let mut s = "message '".to_owned();
                s.append(id.as_str());
                s.append("' not found in conversation state");
                s
            },
            StateError::DuplicateMessage { id } => {
                let mut s = "duplicate message id: '".to_owned();
                s.append(id.as_str());
                s.append("' already exists");
                s
            },
            StateError::ToolCallNotFound { id, message_id } => {
                let mut s = "tool call '".to_owned();
                s.append(id.as_str());
                s.append("' not found in message '");
                s.append(message_id.as_str());
                s.append("'");
                s
            },
            StateError::Serialization { reason } => {
                let mut s = "state serialization failed: ".to_owned();
                s.append(reason.as_str());
                s
            },
        }
    }
}

/// What went wrong in the transport.
#[derive(Debug, Clone, PartialEq, Eq)]
pub enum TransportError {
    /// The request timed out.
    Timeout {
        /// After how many milliseconds.
        duration_ms: u64,
    },
    /// The client went away before the response was complete.
    ClientDisconnected {
        /// What is known of it.
        reason: String,
    },
    /// The HTTP response was an error.
    HttpError {
        /// The status code.
        status: u16,
        /// The message or body.
        message: String,
    },
    /// The connection could not be made.
    ConnectionFailed {
        /// Why not.
        reason: String,
    },
}

impl TransportError {
    /// The text of the error, in specifications.
    pub open spec fn text(&self) -> Seq<char> {
        match *self {
            TransportError::Timeout { duration_ms } => "request timed out after "@ + decimal(duration_ms as nat) + "ms"@,
            TransportError::ClientDisconnected { reason } => "client disconnected: "@ + reason@,
            TransportError::HttpError { status, message } => "HTTP "@ + decimal(status as nat) + ": "@ + message@,
            TransportError::ConnectionFailed { reason } => "connection failed: "@ + reason@,
        }
    }

    /// The text of the error.
    pub fn to_string(&self) -> (r: String)
        ensures
            r@ == self.text(),
    {
        match self {
            TransportError::Timeout { duration_ms } => {
                let mut s = "request timed out after ".to_owned();
                let n = decimal_string(*duration_ms as u64);
                s.append(n.as_str());
                s.append("ms");
                s
            },
            TransportError::ClientDisconnected { reason } => {
                let mut s = "client disconnected: ".to_owned();
                s.append(reason.as_str());
                s
            },
            TransportError::HttpError { status, message } => {
                let mut s = "HTTP ".to_owned();
                let n = decimal_string(*status as u64);
                s.append(n.as_str());
                s.append(": ");
                s.append(message.as_str());
                s
            },
            TransportError::ConnectionFailed { reason } => {
                let mut s = "connection failed: ".to_owned();
                s.append(reason.as_str());
                s
            },
        }
    }
}

/// What went wrong while an event was encoded.
#[derive(Debug, Clone, PartialEq, Eq)]
pub enum EncodeError {
    /// The event could not be written as JSON.
    Json {
        /// The kind of the event, as on the wire.
        event_type: &'static str,
        /// What the JSON writer said.
        reason: String,
    },
    /// The content type that was asked for is not supported.
    UnsupportedContentType {
        /// The content type that was asked for.
        content_type: String,
    },
    /// The event is larger than the limit.
    EventTooLarge {
        /// Its size in bytes.
        size: usize,
        /// The limit in bytes.
        max: usize,
    },
}

impl EncodeError {
    /// The text of the error, in specifications.
    pub open spec fn text(&self) -> Seq<char> {
        match *self {
            EncodeError::Json { event_type, reason } => "JSON serialization failed for "@ + event_type@ + ": "@ + reason@,
            EncodeError::UnsupportedContentType { content_type } => "unsupported content type: "@ + content_type@ + " (supported: text/event-stream, application/x-ag-ui-proto)"@,
            EncodeError::EventTooLarge { size, max } => "event exceeds max size: "@ + decimal(size as nat) + " bytes > "@ + decimal(max as nat) + " bytes limit"@,
        }
    }

    /// The text of the error.
    pub fn to_string(&self) -> (r: String)
        ensures
            r@ == self.text(),
    {
        match self {
            EncodeError::Json { event_type, reason } => {
                let mut s = "JSON serialization failed for ".to_owned();
                s.append(event_type);
                s.append(": ");
                s.append(reason.as_str());
                s
            },
            EncodeError::UnsupportedContentType { content_type } => {
                let mut s = "unsupported content type: ".to_owned();
                s.append(content_type.as_str());
                s.append(" (supported: text/event-stream, application/x-ag-ui-proto)");
                s
            },
            EncodeError::EventTooLarge { size, max } => {
                let mut s = "event exceeds max size: ".to_owned();
                let n = decimal_string(*size as u64);
                s.append(n.as_str());
                s.append(" bytes > ");
                let n = decimal_string(*max as u64);
                s.append(n.as_str());
                s.append(" bytes limit");
                s
            },
        }
    }
}

/// Why a run failed on the server side.
#[derive(Debug, Clone, PartialEq, Eq)]
pub enum AgentError {
    /// The run was cancelled, by an abort signal or because the client went away.
    Aborted {
        /// Why.
        reason: String,
    },
    /// An event broke a rule of the protocol.
    ProtocolViolation {
        /// The kind of the event.
        event_type: &'static str,
        /// The rule that was broken.
        violation: String,
    },
    /// The state manager failed.
    State(StateError),
    /// An event could not be encoded.
    Encoding(EncodeError),
    /// The transport failed.
    Transport(TransportError),
    /// An error of the agent itself.
    Custom {
        /// The message.
        message: String,
        /// The text of the error that caused this one, if any.
        source: Option<String>,
    },
    /// An unexpected condition inside the server.
    Internal {
        /// What happened.
        message: String,
        /// Where in the code, as `file:line`.
        location: String,
    },
}

impl AgentError {
    /// The text of the error, in specifications.
    pub open spec fn text(&self) -> Seq<char> {
        match *self {
            AgentError::Aborted { reason } => "run aborted: "@ + reason@,
            AgentError::ProtocolViolation { event_type, violation } => "protocol violation in "@ + event_type@ + ": "@ + violation@,
            AgentError::State(inner) => "state error: "@ + inner.text(),
            AgentError::Encoding(inner) => "encoding error: "@ + inner.text(),
            AgentError::Transport(inner) => "transport error: "@ + inner.text(),
            AgentError::Custom { message, .. } => message@,
            AgentError::Internal { message, .. } => "internal error: "@ + message@,
        }
    }

    /// The text of the error.
    pub fn to_string(&self) -> (r: String)
        ensures
            r@ == self.text(),
    {
        match self {
            AgentError::Aborted { reason } => {
                let mut s = "run aborted: ".to_owned();
                s.append(reason.as_str());
                s
            },
            AgentError::ProtocolViolation { event_type, violation } => {
                let mut s = "protocol violation in ".to_owned();
                s.append(event_type);
                s.append(": ");
                s.append(violation.as_str());
                s
            },
            AgentError::State(inner) => {
                let mut s = "state error: ".to_owned();
                let t = inner.to_string();
                s.append(t.as_str());
                s
            },
            AgentError::Encoding(inner) => {
                let mut s = "encoding error: ".to_owned();
                let t = inner.to_string();
                s.append(t.as_str());
                s
            },
            AgentError::Transport(inner) => {
                let mut s = "transport error: ".to_owned();
                let t = inner.to_string();
                s.append(t.as_str());
                s
            },
            AgentError::Custom { message, .. } => {
                let mut s = message.clone();
                s
            },
            AgentError::Internal { message, .. } => {
                let mut s = "internal error: ".to_owned();
                s.append(message.as_str());
                s
            },
        }
    }
}

impl AgentError {
    /// An error of the agent itself, with the given message.
    pub fn custom(message: &str) -> (r: Self)
        ensures
            r matches AgentError::Custom { message: m, source }
                && m@ == message@ && source.is_none(),
    {
        AgentError::Custom { message: message.to_owned(), source: None }
    }

    /// An error of the agent itself, with the given message and the text
    /// of the error that caused it.
    pub fn custom_with_source(message: &str, source: &str) -> (r: Self)
        ensures
            r matches AgentError::Custom { message: m, source: s }
                && m@ == message@ && s.is_some() && s.unwrap()@ == source@,
    {
        AgentError::Custom { message: message.to_owned(), source: Some(source.to_owned()) }
    }

    /// An unexpected condition, with the place in the code where it was
    /// found.
    pub fn internal(message: &str, location: &str) -> (r: Self)
        ensures
            r matches AgentError::Internal { message: m, location: l }
                && m@ == message@ && l@ == location@,
    {
        AgentError::Internal { message: message.to_owned(), location: location.to_owned() }
    }

    /// Whether the error stands for a cancellation.
    pub fn is_cancelled(&self) -> (r: bool)
        ensures
            r == (self is Aborted),
    {
        match self {
            AgentError::Aborted { .. } => true,
            _ => false,
        }
    }

    /// Whether the client may try again: after a cancellation and after a
    /// timeout.
    pub fn is_recoverable(&self) -> (r: bool)
        ensures
            r == (self is Aborted || (self matches AgentError::Transport(t) && t is Timeout)),
    {
        match self {
            AgentError::Aborted { .. } => true,
            AgentError::Transport(TransportError::Timeout { .. }) => true,
            _ => false,
        }
    }

    /// The code that a `RUN_ERROR` event carries for this error, in
    /// specifications.
    pub open spec fn code(&self) -> Seq<char> {
        match *self {
            AgentError::Aborted { .. } => "ABORTED"@,
            AgentError::ProtocolViolation { .. } => "PROTOCOL_VIOLATION"@,
            AgentError::State(_) => "STATE_ERROR"@,
            AgentError::Encoding(_) => "ENCODING_ERROR"@,
            AgentError::Transport(_) => "TRANSPORT_ERROR"@,
            AgentError::Custom { .. } => "CUSTOM_ERROR"@,
            AgentError::Internal { .. } => "INTERNAL_ERROR"@,
        }
    }
}

/// The code that a `RUN_ERROR` event carries for the error: its kind, in
/// upper snake case.
pub fn error_code(error: &AgentError) -> (r: String)
    ensures
        r@ == error.code(),
{
    match error {
        AgentError::Aborted { .. } => "ABORTED".to_owned(),
        AgentError::ProtocolViolation { .. } => "PROTOCOL_VIOLATION".to_owned(),
        AgentError::State(_) => "STATE_ERROR".to_owned(),
        AgentError::Encoding(_) => "ENCODING_ERROR".to_owned(),
        AgentError::Transport(_) => "TRANSPORT_ERROR".to_owned(),
        AgentError::Custom { .. } => "CUSTOM_ERROR".to_owned(),
        AgentError::Internal { .. } => "INTERNAL_ERROR".to_owned(),
    }
}

impl EncodeError {
    /// The error of an event of the given kind that could not be written
    /// as JSON, for the reason given.
    pub fn json(event_type: &'static str, reason: String) -> (r: Self)
        ensures
            r == (EncodeError::Json { event_type, reason }),
    {
        EncodeError::Json { event_type, reason }
    }
}

/// What an operation of an agent gives.
pub type AgentResult<T> = Result<T, AgentError>;

/// What encoding gives.
pub type EncodeResult<T> = Result<T, EncodeError>;

/// What an operation on the state gives.
pub type StateResult<T> = Result<T, StateError>;

} // verus!
