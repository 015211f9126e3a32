//! What the HTTP glue decides: the paths it serves, the headers of a
//! streamed response, and how a failure is put into words for the client.

use vstd::prelude::*;
use vstd::string::StringExecFns;
use vstd::string::StrSliceExecFns;
use vstd::string::StringSliceAdditionalSpecFns;
use vstd::utf8::encode_utf8;
use crate::event::{BaseEvent, EventType, RunErrorEvent};
use crate::server::encoder::{
    bytes_content, bytes_from_vec, event_type_str, sse_frame, wire_name, ContentType,
    EventEncoder, MAX_EVENT_SIZE,
};
use crate::server::error::{error_code, AgentError, EncodeError};

verus! {

/// The paths of the two endpoints under a prefix, in specifications: the
/// run endpoint at the prefix, or at `/` where the prefix is empty; the
/// health endpoint at `/health` under it.
pub open spec fn run_path(prefix: Seq<char>) -> Seq<char> {
    if prefix.len() == 0 {
        "/"@
    } else {
        prefix
    }
}

/// The path of the health endpoint under a prefix, in specifications.
pub open spec fn health_path(prefix: Seq<char>) -> Seq<char> {
    prefix + "/health"@
}

/// The paths of the run endpoint and of the health endpoint under the
/// given prefix.
pub fn route_paths(prefix: &str) -> (r: (String, String))
    ensures
        r.0@ == run_path(prefix@),
        r.1@ == health_path(prefix@),
{
    let run = if prefix.unicode_len() == 0 {
        "/".to_owned()
    } else {
        prefix.to_owned()
    };
    let health = prefix.to_owned().concat("/health");
    (run, health)
}

/// The headers of a streamed response, in order: the content type of the
/// encoder, no caching, and a connection that is kept alive.
pub fn response_headers(encoder: &EventEncoder) -> (r: Vec<(&'static str, &'static str)>)
    ensures
        r@.len() == 3,
        r@[0].0@ == "Content-Type"@,
        r@[0].1@ == encoder.content_type_enum().mime(),
        r@[1].0@ == "Cache-Control"@,
        r@[1].1@ == "no-cache"@,
        r@[2].0@ == "Connection"@,
        r@[2].1@ == "keep-alive"@,
{
    let mut headers: Vec<(&'static str, &'static str)> = Vec::new();
    headers.push(("Content-Type", encoder.content_type()));
    headers.push(("Cache-Control", "no-cache"));
    headers.push(("Connection", "keep-alive"));
    headers
}

/// The `Accept` header that a request without one is taken to have.
pub fn default_accept() -> (r: &'static str)
    ensures
        r@ == "text/event-stream"@,
{
    "text/event-stream"
}

/// `s` with a backslash put before each double quote.
pub open spec fn quotes_escaped(s: Seq<char>) -> Seq<char>
    decreases s.len(),
{
    if s.len() == 0 {
        Seq::empty()
    } else if s.last() == '"' {
        quotes_escaped(s.drop_last()) + seq!['\\', '"']
    } else {
        quotes_escaped(s.drop_last()).push(s.last())
    }
}

/// A double quote with a backslash before it, as text.
pub open spec fn escaped_quote() -> Seq<char> {
    seq!['\\', '"']
}

/// `s` with a backslash put before each double quote.
pub fn escape_quotes(s: &str) -> (r: String)
    ensures
        r@ == quotes_escaped(s@),
{
    let mut out = String::new();
    let n = s.unicode_len();
    let mut i: usize = 0;
    proof {
        reveal_strlit("\\\"");
        assert("\\\""@ =~= escaped_quote());
        assert(s@.subrange(0, 0) =~= Seq::<char>::empty());
    }
    while i < n
        invariant
            i <= n,
            n == s@.len(),
            "\\\""@ == escaped_quote(),
            out@ == quotes_escaped(s@.subrange(0, i as int)),
        decreases n - i,
    {
        let ghost upto = s@.subrange(0, i + 1);
        proof {
            assert(upto.drop_last() =~= s@.subrange(0, i as int));
            assert(upto.last() == s@[i as int]);
        }
        let c = s.get_char(i);
        if c == '"' {
            out.append("\\\"");
        } else {
            let piece = s.substring_char(i, i + 1);
            proof {
                assert(piece@ =~= seq![c]);
                assert(out@ + piece@ =~= out@.push(c));
            }
            out.append(piece);
        }
        i += 1;
    }
    proof {
        assert(s@.subrange(0, n as int) =~= s@);
    }
    out
}

/// The frame that tells the client of a failure when even the error event
/// cannot be encoded, in specifications: a `RUN_ERROR` event written by
/// hand, with the double quotes of the message escaped.
pub open spec fn fallback_frame(message: Seq<char>) -> Seq<char> {
    "data: {\"type\":\"RUN_ERROR\",\"message\":\""@ + quotes_escaped(message) + "\"}\n\n"@
}

/// The frame that tells the client of a failure when even the error event
/// cannot be encoded.
pub fn fallback_error_frame(message: &str) -> (r: String)
    ensures
        r@ == fallback_frame(message@),
{
    let mut out = "data: {\"type\":\"RUN_ERROR\",\"message\":\"".to_owned();
    let escaped = escape_quotes(message);
    out.append(escaped.as_str());
    out.append("\"}\n\n");
    out
}

/// The frame that tells the client that encoding failed, when even that
/// cannot be encoded.
pub fn encoding_failed_frame() -> (r: &'static str)
    ensures
        r@ == "data: {\"type\":\"RUN_ERROR\",\"message\":\"encoding failed\"}\n\n"@,
{
    "data: {\"type\":\"RUN_ERROR\",\"message\":\"encoding failed\"}\n\n"
}

/// The body of an error response when it cannot be written as JSON, in
/// specifications: an object with the message under `error`, written by
/// hand, with the double quotes of the message escaped.
pub open spec fn error_body_text(message: Seq<char>) -> Seq<char> {
    "{\"error\":\""@ + quotes_escaped(message) + "\"}"@
}

/// The body of an error response when it cannot be written as JSON.
pub fn error_body(message: &str) -> (r: String)
    ensures
        r@ == error_body_text(message@),
{
    let mut out = "{\"error\":\"".to_owned();
    let escaped = escape_quotes(message);
    out.append(escaped.as_str());
    out.append("\"}");
    out
}

/// The `RUN_ERROR` event that an error of the agent is streamed as: the
/// text of the error as message, its kind as code, and the given
/// timestamp.
pub fn agent_error_event(error: &AgentError, timestamp: Option<u64>) -> (r: RunErrorEvent)
    ensures
        r.message@ == error.text(),
        r.code.is_some(),
        r.code.unwrap()@ == error.code(),
        r.base == (BaseEvent { timestamp, raw_event: None }),
{
    RunErrorEvent {
        base: BaseEvent { timestamp, raw_event: None },
        message: error.to_string(),
        code: Some(error_code(error)),
    }
}

/// The `RUN_ERROR` event that a failure to encode an event is streamed
/// as: the message says that encoding failed and why, the code is that of
/// an encoding error, `ENCODING_ERROR`.
pub fn encode_error_event(error: &EncodeError, timestamp: Option<u64>) -> (r: RunErrorEvent)
    ensures
        r.message@ == "encoding error: "@ + error.text(),
        r.code.is_some(),
        r.code.unwrap()@ == "ENCODING_ERROR"@,
        r.base == (BaseEvent { timestamp, raw_event: None }),
{
    let text = error.to_string();
    RunErrorEvent {
        base: BaseEvent { timestamp, raw_event: None },
        message: "encoding error: ".to_owned().concat(text.as_str()),
        code: Some("ENCODING_ERROR".to_owned()),
    }
}

/// Whether the encoder can frame the JSON text `json`: it encodes
/// Server-Sent Events and the text is within the size limit.
pub open spec fn frames(encoder: EventEncoder, json: Seq<char>) -> bool {
    encoder.content_type_enum() == ContentType::Sse && encode_utf8(json).len() <= MAX_EVENT_SIZE
}

/// Why an event is not framed, in words: it has no JSON text, the text is
/// too large, or the encoder has no encoding for JSON text.
pub open spec fn framing_failure(
    encoder: EventEncoder,
    kind: EventType,
    json: Result<String, String>,
) -> Seq<char> {
    match json {
        Err(reason) => "JSON serialization failed for "@ + wire_name(kind) + ": "@ + reason@,
        Ok(text) => if encoder.content_type_enum() == ContentType::Sse {
            (EncodeError::EventTooLarge {
                size: encode_utf8(text@).len() as usize,
                max: MAX_EVENT_SIZE,
            }).text()
        } else {
            "unsupported content type: "@ + ContentType::Proto.mime()
                + " (supported: text/event-stream, application/x-ag-ui-proto)"@
        },
    }
}

/// What is sent for an event of the stream of an agent, given its JSON
/// text or the reason why it has none.
///
/// An event that has a JSON text which the encoder can frame is sent as
/// its frame. For any other the client is told of the failure: the result
/// is the `RUN_ERROR` event to send in its place, which says that encoding
/// failed, and why.
pub fn event_frame(
    encoder: &EventEncoder,
    kind: EventType,
    json: Result<String, String>,
    timestamp: Option<u64>,
) -> (r: Result<bytes::Bytes, RunErrorEvent>)
    ensures
        r.is_ok() == (json matches Ok(text) && frames(*encoder, text@)),
        r matches Ok(frame) ==> bytes_content(frame) == sse_frame(encode_utf8(json.unwrap()@)),
        r matches Err(event) ==> {
            &&& event.code.is_some()
            &&& event.code.unwrap()@ == "ENCODING_ERROR"@
            &&& event.base == (BaseEvent { timestamp, raw_event: None })
            &&& event.message@ == "encoding error: "@ + framing_failure(*encoder, kind, json)
        },
{
    let encoded = match json {
        Ok(text) => encoder.encode(text.as_str()),
        Err(reason) => Err(EncodeError::json(event_type_str(kind), reason)),
    };
    match encoded {
        Ok(frame) => Ok(frame),
        Err(error) => Err(encode_error_event(&error, timestamp)),
    }
}

/// What is sent for a `RUN_ERROR` event, given its JSON text or the
/// reason why it has none: its frame where the encoder can frame the
/// text, else the hand-written frame `fallback`.
pub fn error_frame(encoder: &EventEncoder, json: Result<String, String>, fallback: String) -> (r:
    bytes::Bytes)
    ensures
        bytes_content(r) == (if json matches Ok(text) && frames(*encoder, text@) {
            sse_frame(encode_utf8(json.unwrap()@))
        } else {
            encode_utf8(fallback@)
        }),
{
    let encoded = match json {
        Ok(text) => match encoder.encode(text.as_str()) {
            Ok(frame) => Some(frame),
            Err(_) => None,
        },
        Err(_) => None,
    };
    match encoded {
        Some(frame) => frame,
        None => bytes_from_vec(fallback.as_str().as_bytes_vec()),
    }
}

/// Why a request was refused before its stream began.
#[derive(Debug, Clone, PartialEq, Eq)]
pub enum RequestFailure {
    /// The body could not be read.
    UnreadableBody { reason: String },
    /// The body is no request for a run.
    InvalidBody { reason: String },
    /// The agent could not start the run.
    AgentFailed { reason: String },
}

impl RequestFailure {
    /// The HTTP status of the refusal: 400 for a bad body, 500 where the
    /// agent failed.
    pub fn status(&self) -> (r: u16)
        ensures
            r == (if self is AgentFailed {
                500u16
            } else {
                400u16
            }),
    {
        match self {
            RequestFailure::AgentFailed { .. } => 500,
            _ => 400,
        }
    }

    /// The message of the refusal, in specifications.
    pub open spec fn text(&self) -> Seq<char> {
        match *self {
            RequestFailure::UnreadableBody { reason } => "failed to read request body: "@ + reason@,
            RequestFailure::InvalidBody { reason } => "invalid request body: "@ + reason@,
            RequestFailure::AgentFailed { reason } => reason@,
        }
    }

    /// The message of the refusal.
    pub fn message(&self) -> (r: String)
        ensures
            r@ == self.text(),
    {
        match self {
            RequestFailure::UnreadableBody { reason } => "failed to read request body: ".to_owned().concat(
                reason.as_str(),
            ),
            RequestFailure::InvalidBody { reason } => "invalid request body: ".to_owned().concat(
                reason.as_str(),
            ),
            RequestFailure::AgentFailed { reason } => reason.clone(),
        }
    }
}

} // verus!
