//! The encoder: frames the JSON text of an event as a Server-Sent Event,
//! and negotiates the content type.

use vstd::prelude::*;
use vstd::string::StringSliceAdditionalSpecFns;
use vstd::utf8::encode_utf8;
use crate::event::EventType;
use crate::server::error::EncodeError;

verus! {

#[verifier::external_type_specification]
#[verifier::external_body]
pub struct ExBytes(bytes::Bytes);

/// The bytes that a `bytes::Bytes` buffer holds, in order.
pub uninterp spec fn bytes_content(b: bytes::Bytes) -> Seq<u8>;

/// `Bytes::from` of a `Vec<u8>`: the buffer holds the bytes of the vector,
/// in order.
#[verifier::external_body]
pub(crate) fn bytes_from_vec(v: Vec<u8>) -> (r: bytes::Bytes)
    ensures
        bytes_content(r) == v@,
{
    bytes::Bytes::from(v)
}

/// The largest JSON text of an event that is encoded, in bytes: 1 MiB.
pub const MAX_EVENT_SIZE: usize = 1048576;

/// `data: `, the field name that opens each line of a frame.
pub open spec fn data_prefix() -> Seq<u8> {
    seq![100u8, 97u8, 116u8, 97u8, 58u8, 32u8]
}

/// The line feed.
pub const LF: u8 = 10;

/// The carriage return.
pub const CR: u8 = 13;

/// `line` without a carriage return at its end.
pub open spec fn without_cr(line: Seq<u8>) -> Seq<u8> {
    if line.len() > 0 && line.last() == CR {
        line.drop_last()
    } else {
        line
    }
}

/// Where the first line feed of `b` at or after `from` stands; the length
/// of `b` where there is none.
pub open spec fn next_lf(b: Seq<u8>, from: int) -> int
    decreases b.len() - from,
{
    if from >= b.len() {
        b.len() as int
    } else if b[from] == LF {
        from
    } else {
        next_lf(b, from + 1)
    }
}

/// The frame lines of the text `b` from the place `from` on: for each line
/// of the text, `data: `, the line and a line feed. A line ends at a line
/// feed, or at a carriage return and a line feed; the end of the text
/// ends the last line, and no line follows a line feed at the end.
pub open spec fn data_lines(b: Seq<u8>, from: int) -> Seq<u8>
    decreases b.len() - from,
{
    if from < 0 || from >= b.len() {
        Seq::empty()
    } else {
        let end = next_lf(b, from);
        if end >= b.len() {
            data_prefix() + b.subrange(from, b.len() as int) + seq![LF]
        } else {
            proof {
                lemma_next_lf_bounds(b, from);
            }
            data_prefix() + without_cr(b.subrange(from, end)) + seq![LF] + data_lines(b, end + 1)
        }
    }
}

/// The Server-Sent Event that carries the JSON text `json`: `data: `, the
/// text and two line feeds. A text of several lines is carried line by
/// line, each after `data: `, and a blank line closes the frame.
pub open spec fn sse_frame(json: Seq<u8>) -> Seq<u8> {
    if json.contains(LF) {
        data_lines(json, 0) + seq![LF]
    } else {
        data_prefix() + json + seq![LF, LF]
    }
}

/// The first line feed at or after a place stands at or after that place,
/// and no line feed stands between them.
pub proof fn lemma_next_lf_bounds(b: Seq<u8>, from: int)
    requires
        0 <= from <= b.len(),
    ensures
        from <= next_lf(b, from) <= b.len(),
        next_lf(b, from) < b.len() ==> b[next_lf(b, from)] == LF,
        forall|k: int| from <= k < next_lf(b, from) ==> b[k] != LF,
    decreases b.len() - from,
{
    if from < b.len() && b[from] != LF {
        lemma_next_lf_bounds(b, from + 1);
    }
}

/// Where the first line feed of `b` at or after `from` stands.
pub(crate) fn find_lf(b: &[u8], from: usize) -> (r: usize)
    requires
        from <= b@.len(),
    ensures
        r == next_lf(b@, from as int),
        from <= r <= b@.len(),
{
    let mut i = from;
    proof {
        lemma_next_lf_bounds(b@, from as int);
    }
    while i < b.len() && b[i] != LF
        invariant
            from <= i <= b@.len(),
            next_lf(b@, from as int) == next_lf(b@, i as int),
        decreases b@.len() - i,
    {
        i += 1;
    }
    proof {
        lemma_next_lf_bounds(b@, i as int);
    }
    i
}

/// Puts the bytes of `b` from `from` up to `to` at the end of `out`.
fn push_range(out: &mut Vec<u8>, b: &[u8], from: usize, to: usize)
    requires
        from <= to <= b@.len(),
    ensures
        final(out)@ == old(out)@ + b@.subrange(from as int, to as int),
{
    let mut i = from;
    assert(b@.subrange(from as int, from as int) =~= Seq::<u8>::empty());
    assert(out@ + Seq::<u8>::empty() =~= out@);
    while i < to
        invariant
            from <= i <= to <= b@.len(),
            out@ == old(out)@ + b@.subrange(from as int, i as int),
        decreases to - i,
    {
        out.push(b[i]);
        assert(b@.subrange(from as int, i + 1) =~= b@.subrange(from as int, i as int).push(
            b@[i as int],
        ));
        assert(out@ =~= old(out)@ + b@.subrange(from as int, i + 1));
        i += 1;
    }
}

/// Puts `data: ` at the end of `out`.
fn push_prefix(out: &mut Vec<u8>)
    ensures
        final(out)@ == old(out)@ + data_prefix(),
{
    out.push(100u8);
    out.push(97u8);
    out.push(116u8);
    out.push(97u8);
    out.push(58u8);
    out.push(32u8);
    assert(out@ =~= old(out)@ + data_prefix());
}

/// Frames the JSON text of an event as a Server-Sent Event.
///
/// A text of more than [`MAX_EVENT_SIZE`] bytes is refused as too large.
/// Any other text gives its frame, see [`sse_frame`].
pub fn encode_frame(json: &str) -> (r: Result<Vec<u8>, EncodeError>)
    ensures
        r.is_ok() == (encode_utf8(json@).len() <= MAX_EVENT_SIZE),
        r matches Ok(frame) ==> frame@ == sse_frame(encode_utf8(json@)),
        r matches Err(e) ==> e == (EncodeError::EventTooLarge {
            size: encode_utf8(json@).len() as usize,
            max: MAX_EVENT_SIZE,
        }),
{
    let b = json.as_bytes();
    let n = b.len();
    if n > MAX_EVENT_SIZE {
        return Err(EncodeError::EventTooLarge { size: n, max: MAX_EVENT_SIZE });
    }
    let first = find_lf(b, 0);
    proof {
        lemma_next_lf_bounds(b@, 0);
    }
    if first >= n {
        let mut out: Vec<u8> = Vec::with_capacity(6 + n + 2);
        assert(!b@.contains(LF));
        push_prefix(&mut out);
        push_range(&mut out, b, 0, n);
        out.push(LF);
        out.push(LF);
        assert(b@.subrange(0, n as int) =~= b@);
        assert(out@ =~= data_prefix() + b@ + seq![LF, LF]);
        return Ok(out);
    }
    assert(b@.contains(LF)) by {
        assert(b@[first as int] == LF);
    }
    let mut out: Vec<u8> = Vec::new();
    let mut from: usize = 0;
    assert(Seq::<u8>::empty() + data_lines(b@, 0) =~= data_lines(b@, 0));
    while from < n
        invariant
            from <= n,
            n == b@.len(),
            out@ + data_lines(b@, from as int) == data_lines(b@, 0),
        decreases n - from,
    {
        let end = find_lf(b, from);
        let ghost had = out@;
        push_prefix(&mut out);
        if end >= n {
            push_range(&mut out, b, from, n);
            out.push(LF);
            proof {
                assert(out@ =~= had + (data_prefix() + b@.subrange(from as int, n as int) + seq![
                    LF,
                ]));
                assert(data_lines(b@, n as int) =~= Seq::<u8>::empty());
                assert(out@ + data_lines(b@, n as int) =~= out@);
            }
            from = n;
        } else {
            let stop = if end > from && b[end - 1] == CR {
                end - 1
            } else {
                end
            };
            push_range(&mut out, b, from, stop);
            out.push(LF);
            proof {
                let line = b@.subrange(from as int, end as int);
                assert(without_cr(line) =~= b@.subrange(from as int, stop as int));
                assert(out@ =~= had + (data_prefix() + without_cr(line) + seq![LF]));
                assert(had + (data_prefix() + without_cr(line) + seq![LF]) + data_lines(
                    b@,
                    end + 1,
                ) =~= had + (data_prefix() + without_cr(line) + seq![LF] + data_lines(
                    b@,
                    end + 1,
                )));
            }
            from = end + 1;
        }
    }
    proof {
        assert(data_lines(b@, n as int) =~= Seq::<u8>::empty());
        assert(out@ + Seq::<u8>::empty() =~= out@);
    }
    out.push(LF);
    Ok(out)
}


/// The name of an event kind on the wire: upper snake case.
pub open spec fn wire_name(t: EventType) -> Seq<char> {
    match t {
        EventType::TextMessageStart => "TEXT_MESSAGE_START"@,
        EventType::TextMessageContent => "TEXT_MESSAGE_CONTENT"@,
        EventType::TextMessageEnd => "TEXT_MESSAGE_END"@,
        EventType::TextMessageChunk => "TEXT_MESSAGE_CHUNK"@,
        EventType::ThinkingTextMessageStart => "THINKING_TEXT_MESSAGE_START"@,
        EventType::ThinkingTextMessageContent => "THINKING_TEXT_MESSAGE_CONTENT"@,
        EventType::ThinkingTextMessageEnd => "THINKING_TEXT_MESSAGE_END"@,
        EventType::ToolCallStart => "TOOL_CALL_START"@,
        EventType::ToolCallArgs => "TOOL_CALL_ARGS"@,
        EventType::ToolCallEnd => "TOOL_CALL_END"@,
        EventType::ToolCallChunk => "TOOL_CALL_CHUNK"@,
        EventType::ToolCallResult => "TOOL_CALL_RESULT"@,
        EventType::ThinkingStart => "THINKING_START"@,
        EventType::ThinkingEnd => "THINKING_END"@,
        EventType::StateSnapshot => "STATE_SNAPSHOT"@,
        EventType::StateDelta => "STATE_DELTA"@,
        EventType::MessagesSnapshot => "MESSAGES_SNAPSHOT"@,
        EventType::Raw => "RAW"@,
        EventType::Custom => "CUSTOM"@,
        EventType::RunStarted => "RUN_STARTED"@,
        EventType::RunFinished => "RUN_FINISHED"@,
        EventType::RunError => "RUN_ERROR"@,
        EventType::StepStarted => "STEP_STARTED"@,
        EventType::StepFinished => "STEP_FINISHED"@,
    }
}

/// The name of an event kind on the wire.
pub fn event_type_str(event_type: EventType) -> (r: &'static str)
    ensures
        r@ == wire_name(event_type),
{
    match event_type {
        EventType::TextMessageStart => "TEXT_MESSAGE_START",
        EventType::TextMessageContent => "TEXT_MESSAGE_CONTENT",
        EventType::TextMessageEnd => "TEXT_MESSAGE_END",
        EventType::TextMessageChunk => "TEXT_MESSAGE_CHUNK",
        EventType::ThinkingTextMessageStart => "THINKING_TEXT_MESSAGE_START",
        EventType::ThinkingTextMessageContent => "THINKING_TEXT_MESSAGE_CONTENT",
        EventType::ThinkingTextMessageEnd => "THINKING_TEXT_MESSAGE_END",
        EventType::ToolCallStart => "TOOL_CALL_START",
        EventType::ToolCallArgs => "TOOL_CALL_ARGS",
        EventType::ToolCallEnd => "TOOL_CALL_END",
        EventType::ToolCallChunk => "TOOL_CALL_CHUNK",
        EventType::ToolCallResult => "TOOL_CALL_RESULT",
        EventType::ThinkingStart => "THINKING_START",
        EventType::ThinkingEnd => "THINKING_END",
        EventType::StateSnapshot => "STATE_SNAPSHOT",
        EventType::StateDelta => "STATE_DELTA",
        EventType::MessagesSnapshot => "MESSAGES_SNAPSHOT",
        EventType::Raw => "RAW",
        EventType::Custom => "CUSTOM",
        EventType::RunStarted => "RUN_STARTED",
        EventType::RunFinished => "RUN_FINISHED",
        EventType::RunError => "RUN_ERROR",
        EventType::StepStarted => "STEP_STARTED",
        EventType::StepFinished => "STEP_FINISHED",
    }
}

/// Encodes the JSON text of an event as a Server-Sent Event.
///
/// A text of more than [`MAX_EVENT_SIZE`] bytes is refused as too large.
/// Any other text gives a buffer with its frame, see [`sse_frame`].
pub fn encode(json: &str) -> (r: Result<bytes::Bytes, EncodeError>)
    ensures
        r.is_ok() == (encode_utf8(json@).len() <= MAX_EVENT_SIZE),
        r matches Ok(frame) ==> bytes_content(frame) == sse_frame(encode_utf8(json@)),
        r matches Err(e) ==> e == (EncodeError::EventTooLarge {
            size: encode_utf8(json@).len() as usize,
            max: MAX_EVENT_SIZE,
        }),
{
    match encode_frame(json) {
        Ok(frame) => Ok(bytes_from_vec(frame)),
        Err(e) => Err(e),
    }
}

/// The content types that the encoder knows.
#[derive(Debug, Clone, Copy, PartialEq, Eq, Structural, Hash)]
pub enum ContentType {
    /// Server-Sent Events, `text/event-stream`: JSON in SSE frames.
    Sse,
    /// Protocol Buffers, `application/x-ag-ui-proto`: a binary encoding.
    Proto,
}

impl Default for ContentType {
    fn default() -> (r: Self)
        ensures
            r == ContentType::Sse,
    {
        ContentType::Sse
    }
}

impl ContentType {
    /// The content type that answers an `Accept` header. Server-Sent
    /// Events answer every header: they are the default, and the binary
    /// encoding is not among those that this library can write.
    pub fn from_accept(accept: &str) -> (r: Self)
        ensures
            r == ContentType::Sse,
    {
        ContentType::Sse
    }

    /// The MIME type, in specifications.
    pub open spec fn mime(&self) -> Seq<char> {
        match *self {
            ContentType::Sse => "text/event-stream"@,
            ContentType::Proto => "application/x-ag-ui-proto"@,
        }
    }

    /// The MIME type, for the `Content-Type` header of the response.
    pub fn as_str(&self) -> (r: &'static str)
        ensures
            r@ == self.mime(),
    {
        match self {
            ContentType::Sse => "text/event-stream",
            ContentType::Proto => "application/x-ag-ui-proto",
        }
    }

    /// Whether the encoding is binary.
    pub fn is_binary(&self) -> (r: bool)
        ensures
            r == (*self == ContentType::Proto),
    {
        match self {
            ContentType::Sse => false,
            ContentType::Proto => true,
        }
    }
}

/// The frames of the JSON texts `jsons`, one after another.
pub open spec fn sse_frames(jsons: Seq<Seq<u8>>) -> Seq<u8>
    decreases jsons.len(),
{
    if jsons.len() == 0 {
        Seq::empty()
    } else {
        sse_frames(jsons.drop_last()) + sse_frame(jsons.last())
    }
}

/// The JSON texts of `jsons`, as bytes.
pub open spec fn json_bytes(jsons: Seq<String>) -> Seq<Seq<u8>> {
    jsons.map_values(|j: String| encode_utf8(j@))
}

/// Whether each of the JSON texts is within the size limit.
pub open spec fn all_fit(jsons: Seq<Seq<u8>>) -> bool {
    forall|i: int| 0 <= i < jsons.len() ==> (#[trigger] jsons[i]).len() <= MAX_EVENT_SIZE
}

/// An encoder for the events of one response, with its content type.
#[derive(Debug, Clone, Copy, PartialEq, Eq, Structural)]
pub struct EventEncoder {
    content_type: ContentType,
}

impl Default for EventEncoder {
    fn default() -> (r: Self)
        ensures
            r.content_type_enum() == ContentType::Sse,
    {
        EventEncoder { content_type: ContentType::Sse }
    }
}

impl EventEncoder {
    /// The encoder that answers an `Accept` header: the one for
    /// Server-Sent Events, whatever the header asks for.
    pub fn from_accept(accept: &str) -> (r: Self)
        ensures
            r.content_type_enum() == ContentType::Sse,
    {
        EventEncoder { content_type: ContentType::from_accept(accept) }
    }

    /// The encoder for Server-Sent Events.
    pub fn sse() -> (r: Self)
        ensures
            r.content_type_enum() == ContentType::Sse,
    {
        EventEncoder { content_type: ContentType::Sse }
    }

    /// The encoder for Protocol Buffers.
    pub fn proto() -> (r: Self)
        ensures
            r.content_type_enum() == ContentType::Proto,
    {
        EventEncoder { content_type: ContentType::Proto }
    }

    /// The MIME type, for the `Content-Type` header of the response.
    pub fn content_type(&self) -> (r: &'static str)
        ensures
            r@ == self.content_type_enum().mime(),
    {
        self.content_type.as_str()
    }

    /// The content type of the encoder.
    #[verifier::when_used_as_spec(spec_content_type_enum)]
    pub fn content_type_enum(&self) -> (r: ContentType)
        ensures
            r == self.spec_content_type_enum(),
    {
        self.content_type
    }

    /// The content type of the encoder, in specifications.
    pub closed spec fn spec_content_type_enum(&self) -> ContentType {
        self.content_type
    }

    /// Encodes the JSON text of an event.
    ///
    /// For Server-Sent Events this is [`encode`]. JSON text has no binary
    /// encoding: the Protocol Buffers encoder refuses it as an unsupported
    /// content type.
    pub fn encode(&self, json: &str) -> (r: Result<bytes::Bytes, EncodeError>)
        ensures
            r.is_ok() == (self.content_type_enum() == ContentType::Sse && encode_utf8(json@).len()
                <= MAX_EVENT_SIZE),
            r matches Ok(frame) ==> bytes_content(frame) == sse_frame(encode_utf8(json@)),
            r matches Err(e) ==> (if self.content_type_enum() == ContentType::Sse {
                e == (EncodeError::EventTooLarge {
                    size: encode_utf8(json@).len() as usize,
                    max: MAX_EVENT_SIZE,
                })
            } else {
                e matches EncodeError::UnsupportedContentType { content_type }
                    && content_type@ == ContentType::Proto.mime()
            }),
    {
        match self.content_type {
            ContentType::Sse => encode(json),
            ContentType::Proto => Err(
                EncodeError::UnsupportedContentType {
                    content_type: ContentType::Proto.as_str().to_owned(),
                },
            ),
        }
    }

    /// Encodes the JSON texts of several events: their frames, one after
    /// another. Fails with the error of the first text that cannot be
    /// encoded: the first that is too large.
    pub fn encode_batch(&self, jsons: &Vec<String>) -> (r: Result<bytes::Bytes, EncodeError>)
        ensures
            r.is_ok() == (jsons@.len() == 0 || (self.content_type_enum() == ContentType::Sse
                && all_fit(json_bytes(jsons@)))),
            r matches Ok(frames) ==> bytes_content(frames) == sse_frames(json_bytes(jsons@)),
            r matches Err(e) ==> (if self.content_type_enum() == ContentType::Sse {
                exists|i: int|
                    0 <= i < jsons@.len() && all_fit(json_bytes(jsons@).subrange(0, i))
                        && (#[trigger] json_bytes(jsons@)[i]).len() > MAX_EVENT_SIZE && e == (
                    EncodeError::EventTooLarge {
                        size: json_bytes(jsons@)[i].len() as usize,
                        max: MAX_EVENT_SIZE,
                    })
            } else {
                e matches EncodeError::UnsupportedContentType { content_type }
                    && content_type@ == ContentType::Proto.mime()
            }),
    {
        let mut buffer: Vec<u8> = Vec::new();
        let mut i: usize = 0;
        assert(json_bytes(jsons@).subrange(0, 0) =~= Seq::<Seq<u8>>::empty());
        while i < jsons.len()
            invariant
                i <= jsons@.len(),
                i > 0 ==> self.content_type_enum() == ContentType::Sse,
                all_fit(json_bytes(jsons@).subrange(0, i as int)),
                buffer@ == sse_frames(json_bytes(jsons@).subrange(0, i as int)),
            decreases jsons@.len() - i,
        {
            let ghost upto = json_bytes(jsons@).subrange(0, i + 1);
            proof {
                assert(upto.drop_last() =~= json_bytes(jsons@).subrange(0, i as int));
                assert(upto.last() == encode_utf8(jsons@[i as int]@));
            }
            match self.content_type {
                ContentType::Sse => match encode_frame(jsons[i].as_str()) {
                    Ok(frame) => {
                        let ghost had = buffer@;
                        let mut frame = frame;
                        buffer.append(&mut frame);
                        assert(all_fit(upto)) by {
                            assert forall|k: int| 0 <= k < upto.len() implies (#[trigger] upto[k]).len()
                                <= MAX_EVENT_SIZE by {
                                if k < i {
                                    assert(upto[k] == json_bytes(jsons@).subrange(0, i as int)[k]);
                                }
                            }
                        }
                    },
                    Err(e) => {
                        proof {
                            assert(!all_fit(json_bytes(jsons@))) by {
                                assert(json_bytes(jsons@)[i as int].len() > MAX_EVENT_SIZE);
                            }
                        }
                        return Err(e);
                    },
                },
                ContentType::Proto => {
                    return Err(
                        EncodeError::UnsupportedContentType {
                            content_type: ContentType::Proto.as_str().to_owned(),
                        },
                    );
                },
            }
            i += 1;
        }
        proof {
            assert(json_bytes(jsons@).subrange(0, jsons@.len() as int) =~= json_bytes(jsons@));
        }
        Ok(bytes_from_vec(buffer))
    }
}

} // verus!
