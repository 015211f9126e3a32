//! Balanced transcripts: a run that opens, streams whole sub-flows, one
//! after another or interleaved, and closes. The verifier accepts every
//! one of them.

use vstd::prelude::*;
use crate::event::Event;
use crate::text_set::without;
use crate::verify::{
    accepts, distinct, initial_state, lemma_accepts_concat, lemma_state_after_concat, next_state,
    state_after, subject, violation_of, VerifierState,
};

verus! {

/// A run is active and nothing is streaming.
pub open spec fn idle(s: VerifierState) -> bool {
    &&& s.first_event_received
    &&& s.run_started
    &&& !s.run_finished
    &&& !s.run_error
    &&& s.active_messages.len() == 0
    &&& s.active_tool_calls.len() == 0
    &&& s.active_steps.len() == 0
    &&& !s.active_thinking
    &&& !s.active_thinking_message
}

/// Every event of `f` is about the same subject.
pub open spec fn one_subject(f: Seq<Event>) -> bool {
    forall|i: int| 0 <= i < f.len() ==> subject(#[trigger] f[i]) == subject(f[0])
}

/// A whole text message: its start, pieces of content, its end.
pub open spec fn is_message_flow(f: Seq<Event>) -> bool {
    &&& f.len() >= 2
    &&& f[0] is TextMessageStart
    &&& f[f.len() - 1] is TextMessageEnd
    &&& forall|i: int| 0 < i < f.len() - 1 ==> #[trigger] f[i] is TextMessageContent
    &&& one_subject(f)
}

/// A whole tool call: its start, pieces of arguments, its end.
pub open spec fn is_tool_call_flow(f: Seq<Event>) -> bool {
    &&& f.len() >= 2
    &&& f[0] is ToolCallStart
    &&& f[f.len() - 1] is ToolCallEnd
    &&& forall|i: int| 0 < i < f.len() - 1 ==> #[trigger] f[i] is ToolCallArgs
    &&& one_subject(f)
}

/// A whole step: its start and its end.
pub open spec fn is_step_flow(f: Seq<Event>) -> bool {
    &&& f.len() == 2
    &&& f[0] is StepStarted
    &&& f[1] is StepFinished
    &&& one_subject(f)
}

/// A whole thinking message: its start, pieces of content, its end.
pub open spec fn is_thinking_message_flow(f: Seq<Event>) -> bool {
    &&& f.len() >= 2
    &&& f[0] is ThinkingTextMessageStart
    &&& f[f.len() - 1] is ThinkingTextMessageEnd
    &&& forall|i: int| 0 < i < f.len() - 1 ==> #[trigger] f[i] is ThinkingTextMessageContent
}

/// Each of `parts` is a whole thinking message.
pub open spec fn thinking_messages(parts: Seq<Seq<Event>>) -> bool {
    forall|j: int| 0 <= j < parts.len() ==> is_thinking_message_flow(#[trigger] parts[j])
}

/// A whole thinking step: its start, whole thinking messages, its end.
pub open spec fn is_thinking_flow(f: Seq<Event>) -> bool {
    &&& f.len() >= 2
    &&& f[0] is ThinkingStart
    &&& f[f.len() - 1] is ThinkingEnd
    &&& exists|parts: Seq<Seq<Event>>|
        thinking_messages(parts) && f.subrange(1, f.len() - 1) == #[trigger] parts.flatten()
}

/// An event that no rule restricts within a run.
pub open spec fn is_free(e: Event) -> bool {
    ||| e is TextMessageChunk
    ||| e is ToolCallChunk
    ||| e is ToolCallResult
    ||| e is StateSnapshot
    ||| e is StateDelta
    ||| e is MessagesSnapshot
    ||| e is Raw
    ||| e is Custom
}

/// A whole sub-flow: a text message, a tool call, a step, a thinking step,
/// or a single event that no rule restricts.
pub open spec fn is_sub_flow(f: Seq<Event>) -> bool {
    ||| is_message_flow(f)
    ||| is_tool_call_flow(f)
    ||| is_step_flow(f)
    ||| is_thinking_flow(f)
    ||| (f.len() == 1 && is_free(f[0]))
}

/// Each of `flows` is a whole sub-flow.
pub open spec fn sub_flows(flows: Seq<Seq<Event>>) -> bool {
    forall|j: int| 0 <= j < flows.len() ==> is_sub_flow(#[trigger] flows[j])
}

/// What one event does, as a sequence of one.
proof fn lemma_single(s: VerifierState, e: Event)
    ensures
        accepts(s, seq![e]) == violation_of(s, e).is_none(),
        state_after(s, seq![e]) == next_state(s, e),
{
    let one = seq![e];
    assert(one.drop_first() =~= Seq::<Event>::empty());
    assert(accepts(next_state(s, one[0]), one.drop_first()));
    assert(state_after(next_state(s, one[0]), one.drop_first()) == next_state(s, one[0]));
}

/// Events that are each allowed in `s` and leave it as it is are allowed
/// in a row, and leave it as it is.
proof fn lemma_stutter(s: VerifierState, c: Seq<Event>)
    requires
        forall|i: int|
            0 <= i < c.len() ==> violation_of(s, #[trigger] c[i]).is_none() && next_state(s, c[i])
                == s,
    ensures
        accepts(s, c),
        state_after(s, c) == s,
    decreases c.len(),
{
    if c.len() > 0 {
        assert(violation_of(s, c[0]).is_none() && next_state(s, c[0]) == s);
        let rest = c.drop_first();
        assert forall|i: int| 0 <= i < rest.len() implies violation_of(s, #[trigger] rest[i]).is_none()
            && next_state(s, rest[i]) == s by {
            assert(rest[i] == c[i + 1]);
        }
        lemma_stutter(s, rest);
    }
}

/// An opening event, a middle and a closing event are allowed where the
/// opening is, the middle leaves the state after it as it is, and the
/// closing is allowed there.
proof fn lemma_bracket(s: VerifierState, f: Seq<Event>, mid: VerifierState)
    requires
        f.len() >= 2,
        violation_of(s, f[0]).is_none(),
        next_state(s, f[0]) == mid,
        accepts(mid, f.subrange(1, f.len() - 1)),
        state_after(mid, f.subrange(1, f.len() - 1)) == mid,
        violation_of(mid, f[f.len() - 1]).is_none(),
    ensures
        accepts(s, f),
        state_after(s, f) == next_state(mid, f[f.len() - 1]),
{
    let open = seq![f[0]];
    let middle = f.subrange(1, f.len() - 1);
    let close = seq![f[f.len() - 1]];
    assert(f =~= open + middle + close);
    lemma_single(s, f[0]);
    lemma_single(mid, f[f.len() - 1]);
    lemma_accepts_concat(s, open, middle);
    lemma_state_after_concat(s, open, middle);
    lemma_accepts_concat(s, open + middle, close);
    lemma_state_after_concat(s, open + middle, close);
}

/// A whole text message is allowed where nothing is streaming, and leaves
/// nothing streaming.
proof fn lemma_message_flow(s: VerifierState, f: Seq<Event>)
    requires
        idle(s),
        is_message_flow(f),
    ensures
        accepts(s, f),
        state_after(s, f) == s,
{
    let k = subject(f[0]);
    let mid = VerifierState { active_messages: s.active_messages.push(k), ..s };
    assert(mid.active_messages[0] == k);
    assert(mid.active_messages.contains(k));
    let middle = f.subrange(1, f.len() - 1);
    assert forall|i: int| 0 <= i < middle.len() implies violation_of(mid, #[trigger] middle[i]).is_none()
        && next_state(mid, middle[i]) == mid by {
        assert(middle[i] == f[i + 1]);
        assert(f[i + 1] is TextMessageContent);
        assert(subject(f[i + 1]) == k);
    }
    lemma_stutter(mid, middle);
    let last = f[f.len() - 1];
    assert(subject(last) == k);
    assert(mid.active_messages =~= seq![k]);
    assert(mid.active_messages.index_of(k) == 0);
    assert(mid.active_messages.remove(0) =~= s.active_messages);
    assert(next_state(mid, last) == s);
    lemma_bracket(s, f, mid);
}

/// A whole tool call is allowed where nothing is streaming, and leaves
/// nothing streaming.
proof fn lemma_tool_call_flow(s: VerifierState, f: Seq<Event>)
    requires
        idle(s),
        is_tool_call_flow(f),
    ensures
        accepts(s, f),
        state_after(s, f) == s,
{
    let k = subject(f[0]);
    let mid = VerifierState { active_tool_calls: s.active_tool_calls.push(k), ..s };
    assert(mid.active_tool_calls[0] == k);
    assert(mid.active_tool_calls.contains(k));
    let middle = f.subrange(1, f.len() - 1);
    assert forall|i: int| 0 <= i < middle.len() implies violation_of(mid, #[trigger] middle[i]).is_none()
        && next_state(mid, middle[i]) == mid by {
        assert(middle[i] == f[i + 1]);
        assert(f[i + 1] is ToolCallArgs);
        assert(subject(f[i + 1]) == k);
    }
    lemma_stutter(mid, middle);
    let last = f[f.len() - 1];
    assert(subject(last) == k);
    assert(mid.active_tool_calls =~= seq![k]);
    assert(mid.active_tool_calls.index_of(k) == 0);
    assert(mid.active_tool_calls.remove(0) =~= s.active_tool_calls);
    assert(next_state(mid, last) == s);
    lemma_bracket(s, f, mid);
}

/// A whole step is allowed where nothing is streaming, and leaves nothing
/// streaming.
proof fn lemma_step_flow(s: VerifierState, f: Seq<Event>)
    requires
        idle(s),
        is_step_flow(f),
    ensures
        accepts(s, f),
        state_after(s, f) == s,
{
    let k = subject(f[0]);
    let mid = VerifierState { active_steps: s.active_steps.push(k), ..s };
    assert(mid.active_steps[0] == k);
    assert(mid.active_steps.contains(k));
    let middle = f.subrange(1, f.len() - 1);
    assert(middle =~= Seq::<Event>::empty());
    let last = f[f.len() - 1];
    assert(subject(last) == k);
    assert(mid.active_steps =~= seq![k]);
    assert(mid.active_steps.index_of(k) == 0);
    assert(mid.active_steps.remove(0) =~= s.active_steps);
    assert(next_state(mid, last) == s);
    lemma_bracket(s, f, mid);
}

/// A thinking step is active, no thinking message is, and a run is.
spec fn thinking(s: VerifierState) -> bool {
    &&& s.first_event_received
    &&& s.run_started
    &&& !s.run_finished
    &&& !s.run_error
    &&& s.active_thinking
    &&& !s.active_thinking_message
}

/// A whole thinking message is allowed within a thinking step, and leaves
/// the step as it was.
proof fn lemma_thinking_message_flow(s: VerifierState, f: Seq<Event>)
    requires
        thinking(s),
        is_thinking_message_flow(f),
    ensures
        accepts(s, f),
        state_after(s, f) == s,
{
    let mid = VerifierState { active_thinking_message: true, ..s };
    let middle = f.subrange(1, f.len() - 1);
    assert forall|i: int| 0 <= i < middle.len() implies violation_of(mid, #[trigger] middle[i]).is_none()
        && next_state(mid, middle[i]) == mid by {
        assert(middle[i] == f[i + 1]);
        assert(f[i + 1] is ThinkingTextMessageContent);
    }
    lemma_stutter(mid, middle);
    assert(next_state(mid, f[f.len() - 1]) == s);
    lemma_bracket(s, f, mid);
}

/// Whole thinking messages in a row are allowed within a thinking step,
/// and leave the step as it was.
proof fn lemma_thinking_messages(s: VerifierState, parts: Seq<Seq<Event>>)
    requires
        thinking(s),
        thinking_messages(parts),
    ensures
        accepts(s, parts.flatten()),
        state_after(s, parts.flatten()) == s,
    decreases parts.len(),
{
    if parts.len() > 0 {
        let rest = parts.drop_first();
        assert(is_thinking_message_flow(parts[0]));
        assert forall|j: int| 0 <= j < rest.len() implies is_thinking_message_flow(#[trigger] rest[j]) by {
            assert(rest[j] == parts[j + 1]);
        }
        lemma_thinking_message_flow(s, parts.first());
        lemma_thinking_messages(s, rest);
        lemma_accepts_concat(s, parts.first(), rest.flatten());
        lemma_state_after_concat(s, parts.first(), rest.flatten());
    }
}

/// A whole thinking step is allowed where nothing is streaming, and leaves
/// nothing streaming.
proof fn lemma_thinking_flow(s: VerifierState, f: Seq<Event>)
    requires
        idle(s),
        is_thinking_flow(f),
    ensures
        accepts(s, f),
        state_after(s, f) == s,
{
    let mid = VerifierState { active_thinking: true, ..s };
    let parts = choose|parts: Seq<Seq<Event>>|
        thinking_messages(parts) && f.subrange(1, f.len() - 1) == #[trigger] parts.flatten();
    lemma_thinking_messages(mid, parts);
    assert(next_state(mid, f[f.len() - 1]) == s);
    lemma_bracket(s, f, mid);
}

/// A whole sub-flow is allowed where nothing is streaming, and leaves
/// nothing streaming.
pub proof fn lemma_sub_flow_accepted(s: VerifierState, f: Seq<Event>)
    requires
        idle(s),
        is_sub_flow(f),
    ensures
        accepts(s, f),
        state_after(s, f) == s,
{
    if is_message_flow(f) {
        lemma_message_flow(s, f);
    } else if is_tool_call_flow(f) {
        lemma_tool_call_flow(s, f);
    } else if is_step_flow(f) {
        lemma_step_flow(s, f);
    } else if is_thinking_flow(f) {
        lemma_thinking_flow(s, f);
    } else {
        assert(f =~= seq![f[0]]);
        lemma_single(s, f[0]);
    }
}

/// Whole sub-flows in a row are allowed where nothing is streaming, and
/// leave nothing streaming.
pub proof fn lemma_sub_flows_accepted(s: VerifierState, flows: Seq<Seq<Event>>)
    requires
        idle(s),
        sub_flows(flows),
    ensures
        accepts(s, flows.flatten()),
        state_after(s, flows.flatten()) == s,
    decreases flows.len(),
{
    if flows.len() > 0 {
        let rest = flows.drop_first();
        assert(is_sub_flow(flows[0]));
        assert forall|j: int| 0 <= j < rest.len() implies is_sub_flow(#[trigger] rest[j]) by {
            assert(rest[j] == flows[j + 1]);
        }
        lemma_sub_flow_accepted(s, flows.first());
        lemma_sub_flows_accepted(s, rest);
        lemma_accepts_concat(s, flows.first(), rest.flatten());
        lemma_state_after_concat(s, flows.first(), rest.flatten());
    }
}

/// The verifier accepts every balanced transcript: a run start, whole
/// sub-flows one after another, and a run end, from the start of a stream.
/// After it the run counts as finished and nothing is streaming.
pub proof fn lemma_balanced_transcript_accepted(
    start: Event,
    flows: Seq<Seq<Event>>,
    finish: Event,
)
    requires
        start is RunStarted,
        sub_flows(flows),
        finish is RunFinished,
    ensures
        accepts(initial_state(), seq![start] + flows.flatten() + seq![finish]),
        state_after(initial_state(), seq![start] + flows.flatten() + seq![finish]).run_finished,
{
    let s0 = initial_state();
    let s1 = next_state(s0, start);
    assert(idle(s1));
    lemma_sub_flows_accepted(s1, flows);
    let f = seq![start] + flows.flatten() + seq![finish];
    assert(f.subrange(1, f.len() - 1) =~= flows.flatten());
    assert(f[0] == start);
    assert(f[f.len() - 1] == finish);
    lemma_bracket(s0, f, s1);
}


/// Whether the text message `k` is streaming after the events `events`:
/// its last start has not been followed by its end.
pub open spec fn message_open(events: Seq<Event>, k: Seq<char>) -> bool
    decreases events.len(),
{
    if events.len() == 0 {
        false
    } else if events.last() is TextMessageStart && subject(events.last()) == k {
        true
    } else if events.last() is TextMessageEnd && subject(events.last()) == k {
        false
    } else {
        message_open(events.drop_last(), k)
    }
}

/// Whether the tool call `k` is streaming after the events `events`.
pub open spec fn tool_call_open(events: Seq<Event>, k: Seq<char>) -> bool
    decreases events.len(),
{
    if events.len() == 0 {
        false
    } else if events.last() is ToolCallStart && subject(events.last()) == k {
        true
    } else if events.last() is ToolCallEnd && subject(events.last()) == k {
        false
    } else {
        tool_call_open(events.drop_last(), k)
    }
}

/// Whether the step `k` is active after the events `events`.
pub open spec fn step_open(events: Seq<Event>, k: Seq<char>) -> bool
    decreases events.len(),
{
    if events.len() == 0 {
        false
    } else if events.last() is StepStarted && subject(events.last()) == k {
        true
    } else if events.last() is StepFinished && subject(events.last()) == k {
        false
    } else {
        step_open(events.drop_last(), k)
    }
}

/// Whether a thinking step is active after the events `events`.
pub open spec fn thinking_open(events: Seq<Event>) -> bool
    decreases events.len(),
{
    if events.len() == 0 {
        false
    } else if events.last() is ThinkingStart {
        true
    } else if events.last() is ThinkingEnd {
        false
    } else {
        thinking_open(events.drop_last())
    }
}

/// Whether a thinking message is streaming after the events `events`.
pub open spec fn thinking_message_open(events: Seq<Event>) -> bool
    decreases events.len(),
{
    if events.len() == 0 {
        false
    } else if events.last() is ThinkingTextMessageStart {
        true
    } else if events.last() is ThinkingTextMessageEnd {
        false
    } else {
        thinking_message_open(events.drop_last())
    }
}

/// Whether the event `e` may follow the events `before` within a run whose
/// sub-flows are balanced, however they interleave: a start opens what is
/// not open, content and end belong to what is open, a thinking step ends
/// after its messages, and the run itself neither starts, ends nor fails.
pub open spec fn fits(before: Seq<Event>, e: Event) -> bool {
    let k = subject(e);
    match e {
        Event::TextMessageStart(_) => !message_open(before, k),
        Event::TextMessageContent(_) => message_open(before, k),
        Event::TextMessageEnd(_) => message_open(before, k),
        Event::ToolCallStart(_) => !tool_call_open(before, k),
        Event::ToolCallArgs(_) => tool_call_open(before, k),
        Event::ToolCallEnd(_) => tool_call_open(before, k),
        Event::StepStarted(_) => !step_open(before, k),
        Event::StepFinished(_) => step_open(before, k),
        Event::ThinkingStart(_) => !thinking_open(before),
        Event::ThinkingEnd(_) => thinking_open(before) && !thinking_message_open(before),
        Event::ThinkingTextMessageStart(_) => thinking_open(before) && !thinking_message_open(
            before,
        ),
        Event::ThinkingTextMessageContent(_) => thinking_open(before) && thinking_message_open(
            before,
        ),
        Event::ThinkingTextMessageEnd(_) => thinking_open(before) && thinking_message_open(before),
        Event::RunStarted(_) => false,
        Event::RunFinished(_) => false,
        Event::RunError(_) => false,
        _ => true,
    }
}

/// Whether the events are sub-flows that interleave in any way, with no
/// identifier used again while it is active: each event fits those before
/// it.
pub open spec fn interleaved(events: Seq<Event>) -> bool
    decreases events.len(),
{
    events.len() == 0 || (interleaved(events.drop_last()) && fits(
        events.drop_last(),
        events.last(),
    ))
}

/// Whether every sub-flow of the events has come to its end.
pub open spec fn all_closed(events: Seq<Event>) -> bool {
    &&& forall|k: Seq<char>| !#[trigger] message_open(events, k)
    &&& forall|k: Seq<char>| !#[trigger] tool_call_open(events, k)
    &&& forall|k: Seq<char>| !#[trigger] step_open(events, k)
    &&& !thinking_open(events)
    &&& !thinking_message_open(events)
}

/// The state of the verifier says of the events of a run what is open
/// after them.
spec fn tracks(s: VerifierState, events: Seq<Event>) -> bool {
    &&& s.first_event_received
    &&& s.run_started
    &&& !s.run_finished
    &&& !s.run_error
    &&& distinct(s)
    &&& forall|k: Seq<char>| #[trigger] s.active_messages.contains(k) == message_open(events, k)
    &&& forall|k: Seq<char>| #[trigger] s.active_tool_calls.contains(k) == tool_call_open(events, k)
    &&& forall|k: Seq<char>| #[trigger] s.active_steps.contains(k) == step_open(events, k)
    &&& s.active_thinking == thinking_open(events)
    &&& s.active_thinking_message == thinking_message_open(events)
}

/// What a list of distinct members holds after one more that it did not
/// hold.
proof fn lemma_pushed(s: Seq<Seq<char>>, x: Seq<char>)
    requires
        s.no_duplicates(),
        !s.contains(x),
    ensures
        s.push(x).no_duplicates(),
        forall|t: Seq<char>| #[trigger] s.push(x).contains(t) == (s.contains(t) || t == x),
{
    let p = s.push(x);
    assert forall|t: Seq<char>| #[trigger] p.contains(t) == (s.contains(t) || t == x) by {
        if s.contains(t) {
            let i = choose|i: int| 0 <= i < s.len() && s[i] == t;
            assert(p[i] == t);
        }
        if t == x {
            assert(p[s.len() as int] == t);
        }
        if p.contains(t) {
            let i = choose|i: int| 0 <= i < p.len() && p[i] == t;
            if i < s.len() {
                assert(s[i] == t);
            }
        }
    }
    assert forall|i: int, j: int| 0 <= i < p.len() && 0 <= j < p.len() && i != j implies p[i]
        != p[j] by {
        if i < s.len() && j < s.len() {
        } else if i < s.len() {
            assert(s.contains(s[i]));
        } else {
            assert(s.contains(s[j]));
        }
    }
}

/// What a list of distinct members holds after one of them was taken out.
proof fn lemma_taken(s: Seq<Seq<char>>, x: Seq<char>)
    requires
        s.no_duplicates(),
        s.contains(x),
    ensures
        without(s, x).no_duplicates(),
        forall|t: Seq<char>| #[trigger] without(s, x).contains(t) == (s.contains(t) && t != x),
{
    let at = s.index_of(x);
    let w = s.remove(at);
    assert(w == without(s, x));
    assert forall|i: int| 0 <= i < w.len() implies w[i] == s[if i < at { i } else { i + 1 }] by {}
    assert forall|t: Seq<char>| #[trigger] w.contains(t) == (s.contains(t) && t != x) by {
        if w.contains(t) {
            let i = choose|i: int| 0 <= i < w.len() && w[i] == t;
            let j = if i < at { i } else { i + 1 };
            assert(s[j] == t);
            assert(j != at);
        }
        if s.contains(t) && t != x {
            let j = choose|j: int| 0 <= j < s.len() && s[j] == t;
            let i = if j < at { j } else { j - 1 };
            assert(w[i] == t);
        }
    }
    assert forall|i: int, j: int| 0 <= i < w.len() && 0 <= j < w.len() && i != j implies w[i]
        != w[j] by {
        let a = if i < at { i } else { i + 1 };
        let b = if j < at { j } else { j + 1 };
        assert(w[i] == s[a] && w[j] == s[b]);
    }
}

/// An event that fits those before it is allowed, and the state goes on
/// saying what is open.
proof fn lemma_fitting_event(s: VerifierState, before: Seq<Event>, e: Event)
    requires
        tracks(s, before),
        fits(before, e),
    ensures
        violation_of(s, e).is_none(),
        tracks(next_state(s, e), before.push(e)),
{
    let after = before.push(e);
    let n = next_state(s, e);
    let k = subject(e);
    assert(after.drop_last() =~= before);
    assert(after.last() == e);
    if e is TextMessageStart {
        lemma_pushed(s.active_messages, k);
    } else if e is TextMessageEnd {
        lemma_taken(s.active_messages, k);
    } else if e is ToolCallStart {
        lemma_pushed(s.active_tool_calls, k);
    } else if e is ToolCallEnd {
        lemma_taken(s.active_tool_calls, k);
    } else if e is StepStarted {
        lemma_pushed(s.active_steps, k);
    } else if e is StepFinished {
        lemma_taken(s.active_steps, k);
    }
    assert forall|t: Seq<char>| #[trigger] n.active_messages.contains(t) == message_open(after, t) by {
        assert(s.active_messages.contains(t) == message_open(before, t));
    }
    assert forall|t: Seq<char>| #[trigger] n.active_tool_calls.contains(t) == tool_call_open(
        after,
        t,
    ) by {
        assert(s.active_tool_calls.contains(t) == tool_call_open(before, t));
    }
    assert forall|t: Seq<char>| #[trigger] n.active_steps.contains(t) == step_open(after, t) by {
        assert(s.active_steps.contains(t) == step_open(before, t));
    }
}

/// Sub-flows that interleave are allowed within a run, and the state says
/// what is open after them.
proof fn lemma_interleaved_accepted(s: VerifierState, events: Seq<Event>)
    requires
        tracks(s, Seq::empty()),
        interleaved(events),
    ensures
        accepts(s, events),
        tracks(state_after(s, events), events),
    decreases events.len(),
{
    if events.len() > 0 {
        let before = events.drop_last();
        let e = events.last();
        lemma_interleaved_accepted(s, before);
        let mid = state_after(s, before);
        lemma_fitting_event(mid, before, e);
        lemma_single(mid, e);
        assert(events =~= before + seq![e]);
        assert(before.push(e) =~= events);
        lemma_accepts_concat(s, before, seq![e]);
        lemma_state_after_concat(s, before, seq![e]);
    }
}

/// The verifier accepts every transcript of balanced sub-flows, however
/// they interleave: a run start, events of text messages, tool calls,
/// steps and thinking steps in which no identifier is used again while it
/// is active and everything that was opened is closed, and a run end.
pub proof fn lemma_interleaved_transcript_accepted(start: Event, body: Seq<Event>, finish: Event)
    requires
        start is RunStarted,
        interleaved(body),
        all_closed(body),
        finish is RunFinished,
    ensures
        accepts(initial_state(), seq![start] + body + seq![finish]),
        state_after(initial_state(), seq![start] + body + seq![finish]).run_finished,
{
    let s0 = initial_state();
    let s1 = next_state(s0, start);
    assert(tracks(s1, Seq::empty())) by {
        assert forall|k: Seq<char>| !#[trigger] s1.active_messages.contains(k) by {}
        assert forall|k: Seq<char>| !#[trigger] s1.active_tool_calls.contains(k) by {}
        assert forall|k: Seq<char>| !#[trigger] s1.active_steps.contains(k) by {}
    }
    lemma_interleaved_accepted(s1, body);
    let s2 = state_after(s1, body);
    assert(s2.active_messages.len() == 0) by {
        if s2.active_messages.len() > 0 {
            assert(s2.active_messages.contains(s2.active_messages[0]));
            assert(message_open(body, s2.active_messages[0]));
        }
    }
    assert(s2.active_tool_calls.len() == 0) by {
        if s2.active_tool_calls.len() > 0 {
            assert(s2.active_tool_calls.contains(s2.active_tool_calls[0]));
            assert(tool_call_open(body, s2.active_tool_calls[0]));
        }
    }
    assert(s2.active_steps.len() == 0) by {
        if s2.active_steps.len() > 0 {
            assert(s2.active_steps.contains(s2.active_steps[0]));
            assert(step_open(body, s2.active_steps[0]));
        }
    }
    let open = seq![start];
    let close = seq![finish];
    lemma_single(s0, start);
    lemma_single(s2, finish);
    lemma_accepts_concat(s0, open, body);
    lemma_state_after_concat(s0, open, body);
    lemma_accepts_concat(s0, open + body, close);
    lemma_state_after_concat(s0, open + body, close);
}

} // verus!
