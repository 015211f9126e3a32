//! What folding a run into the conversation keeps true: messages are only
//! ever added, and a streamed text or argument list is the concatenation
//! of its pieces.

use vstd::prelude::*;
use crate::agent::reaches;
use crate::engine::{
    calls_of, folded, known, message_notices, messages_after, names, new_message_notices, notices,
    started_call, started_message, unknown, EngineView, MutationView, NotificationView,
};
use crate::event::Event;
use crate::ids::IdModel;
use crate::json::{json_patched, json_text, json_texts, patch_parsed};
use crate::message::{MessageView, Role};

verus! {

/// `after` extends `before`: every message of `before` stands in `after`
/// at its place, with its identifier and its role.
pub open spec fn extends(after: Seq<MessageView>, before: Seq<MessageView>) -> bool {
    &&& after.len() >= before.len()
    &&& forall|i: int|
        0 <= i < before.len() ==> (#[trigger] after[i]).id == before[i].id && after[i].role
            == before[i].role
}

/// Folding one event only ever adds to the messages: those that were
/// there keep their place, their identifier and their role.
pub proof fn lemma_event_extends_messages(ms: Seq<MessageView>, e: Event, fresh: IdModel)
    ensures
        extends(messages_after(ms, e, fresh), ms),
{
}

/// Folding a run only ever adds to the messages: those that were there
/// keep their place, their identifier and their role.
pub proof fn lemma_run_extends_messages(from: EngineView, events: Seq<Event>, to: EngineView)
    requires
        reaches(from, events, to),
    ensures
        extends(to.messages, from.messages),
    decreases events.len(),
{
    if events.len() > 0 {
        let (mid, fresh, change) = choose|mid: EngineView, fresh: IdModel, change: MutationView|
            reaches(from, events.drop_last(), mid) && fresh.raw.is_none() && #[trigger] folded(
                mid,
                events.last(),
                fresh,
                to,
                change,
            );
        lemma_run_extends_messages(from, events.drop_last(), mid);
        lemma_event_extends_messages(mid.messages, events.last(), fresh);
    }
}

/// The pieces of text that the events carry: the delta of a text content
/// or tool-call arguments event, nothing for any other.
pub open spec fn delta_of(e: Event) -> Seq<char> {
    match e {
        Event::TextMessageContent(x) => x.delta@,
        Event::ToolCallArgs(x) => x.delta@,
        _ => Seq::empty(),
    }
}

/// The deltas of the events, joined in order.
pub open spec fn joined(events: Seq<Event>) -> Seq<char>
    decreases events.len(),
{
    if events.len() == 0 {
        Seq::empty()
    } else {
        joined(events.drop_last()) + delta_of(events.last())
    }
}

/// The text of a streamed message is the concatenation of its pieces: after
/// a text message start and the content events that follow it, the
/// conversation has one more message, which has the identifier of the
/// start and, as its text, the deltas joined in order.
pub proof fn lemma_text_is_joined_deltas(
    from: EngineView,
    start: Event,
    contents: Seq<Event>,
    to: EngineView,
)
    requires
        start is TextMessageStart,
        forall|i: int| 0 <= i < contents.len() ==> #[trigger] contents[i] is TextMessageContent,
        reaches(from, seq![start] + contents, to),
    ensures
        to.messages.len() == from.messages.len() + 1,
        to.messages.drop_last() == from.messages,
        to.messages.last().id == start->TextMessageStart_0.message_id@,
        to.messages.last().role == Role::Assistant,
        to.messages.last().content == Some(joined(contents)),
        to.state == from.state,
    decreases contents.len(),
{
    let events = seq![start] + contents;
    let (mid, fresh, change) = choose|mid: EngineView, fresh: IdModel, change: MutationView|
        reaches(from, events.drop_last(), mid) && fresh.raw.is_none() && #[trigger] folded(
            mid,
            events.last(),
            fresh,
            to,
            change,
        );
    if contents.len() == 0 {
        assert(events.drop_last() =~= Seq::<Event>::empty());
        assert(events.last() == start);
        assert(mid == from);
        assert(to.messages.drop_last() =~= from.messages);
        assert(joined(contents) =~= Seq::<char>::empty());
    } else {
        let rest = contents.drop_last();
        assert(events.drop_last() =~= seq![start] + rest);
        assert(events.last() == contents.last());
        assert forall|i: int| 0 <= i < rest.len() implies #[trigger] rest[i] is TextMessageContent by {
            assert(rest[i] == contents[i]);
        }
        lemma_text_is_joined_deltas(from, start, rest, mid);
        assert(contents.last() is TextMessageContent);
        assert(to.messages.drop_last() =~= mid.messages.drop_last());
    }
}

/// The arguments of a streamed tool call are the concatenation of their
/// pieces: after a tool call start whose parent is the last message, an
/// assistant message, and the argument events that follow it, the last
/// call of that message is the one started, with the deltas joined in
/// order as its arguments.
pub proof fn lemma_arguments_are_joined_deltas(
    from: EngineView,
    start: Event,
    pieces: Seq<Event>,
    to: EngineView,
)
    requires
        start is ToolCallStart,
        from.messages.len() > 0,
        from.messages.last().role == Role::Assistant,
        names(start->ToolCallStart_0.parent_message_id, from.messages.last().id),
        forall|i: int| 0 <= i < pieces.len() ==> #[trigger] pieces[i] is ToolCallArgs,
        reaches(from, seq![start] + pieces, to),
    ensures
        to.messages.len() == from.messages.len(),
        to.messages.drop_last() == from.messages.drop_last(),
        to.messages.last().id == from.messages.last().id,
        to.messages.last().role == Role::Assistant,
        calls_of(to.messages.last().tool_calls).len() == calls_of(
            from.messages.last().tool_calls,
        ).len() + 1,
        calls_of(to.messages.last().tool_calls).drop_last() == calls_of(
            from.messages.last().tool_calls,
        ),
        calls_of(to.messages.last().tool_calls).last().id == started_call(
            start->ToolCallStart_0,
        ).id,
        calls_of(to.messages.last().tool_calls).last().function.name == started_call(
            start->ToolCallStart_0,
        ).function.name,
        calls_of(to.messages.last().tool_calls).last().function.arguments == joined(pieces),
    decreases pieces.len(),
{
    let events = seq![start] + pieces;
    let (mid, fresh, change) = choose|mid: EngineView, fresh: IdModel, change: MutationView|
        reaches(from, events.drop_last(), mid) && fresh.raw.is_none() && #[trigger] folded(
            mid,
            events.last(),
            fresh,
            to,
            change,
        );
    if pieces.len() == 0 {
        assert(events.drop_last() =~= Seq::<Event>::empty());
        assert(events.last() == start);
        assert(mid == from);
        assert(to.messages.drop_last() =~= from.messages.drop_last());
        assert(calls_of(to.messages.last().tool_calls).drop_last() =~= calls_of(
            from.messages.last().tool_calls,
        ));
        assert(joined(pieces) =~= Seq::<char>::empty());
    } else {
        let rest = pieces.drop_last();
        assert(events.drop_last() =~= seq![start] + rest);
        assert(events.last() == pieces.last());
        assert forall|i: int| 0 <= i < rest.len() implies #[trigger] rest[i] is ToolCallArgs by {
            assert(rest[i] == pieces[i]);
        }
        lemma_arguments_are_joined_deltas(from, start, rest, mid);
        assert(pieces.last() is ToolCallArgs);
        assert(to.messages.drop_last() =~= mid.messages.drop_last());
        assert(calls_of(to.messages.last().tool_calls).drop_last() =~= calls_of(
            mid.messages.last().tool_calls,
        ).drop_last());
    }
}

/// After a state snapshot the state is the snapshot.
pub proof fn lemma_snapshot_replaces_state(
    before: EngineView,
    e: Event,
    fresh: IdModel,
    after: EngineView,
    change: MutationView,
)
    requires
        e is StateSnapshot,
        folded(before, e, fresh, after, change),
    ensures
        after.state == json_text(e->StateSnapshot_0.snapshot),
        change.state == Some(after.state),
        after.messages == before.messages,
{
}

/// After a state delta the state is the state before it with the patch of
/// the delta applied.
pub proof fn lemma_delta_patches_state(
    before: EngineView,
    e: Event,
    fresh: IdModel,
    after: EngineView,
    change: MutationView,
)
    requires
        e is StateDelta,
        folded(before, e, fresh, after, change),
    ensures
        patch_parsed(json_texts(e->StateDelta_0.delta@)) matches Some(ops) && json_patched(
            before.state,
            ops,
        ) == Some(after.state),
        change.state == Some(after.state),
        after.messages == before.messages,
{
}


/// A message that a change appends is announced, where the subscribers did
/// not know of it: applying the change tells them of the new message.
pub proof fn lemma_appended_message_is_announced(
    settled: Seq<u128>,
    ms: Seq<MessageView>,
    m: MessageView,
    change: MutationView,
)
    requires
        change.messages == Some(ms.push(m)),
        !known(settled, m.id),
    ensures
        notices(settled, change).contains(NotificationView::NewMessage(m)),
{
    let all = ms.push(m);
    assert(all.drop_last() =~= ms);
    let before = unknown(ms, settled);
    assert(unknown(all, settled) == before.push(m));
    assert(before.push(m).drop_last() =~= before);
    let told = new_message_notices(before);
    assert(new_message_notices(before.push(m)) == told + message_notices(m));
    assert(message_notices(m)[0] == NotificationView::NewMessage(m));
    assert(notices(settled, change)[told.len() as int] == NotificationView::NewMessage(m));
}

/// The message that a text message start creates is announced, where the
/// subscribers did not know of a message with its identifier.
pub proof fn lemma_started_message_is_announced(
    before: EngineView,
    settled: Seq<u128>,
    e: Event,
    fresh: IdModel,
    after: EngineView,
    change: MutationView,
)
    requires
        e is TextMessageStart,
        folded(before, e, fresh, after, change),
        !known(settled, e->TextMessageStart_0.message_id@),
    ensures
        notices(settled, change).contains(
            NotificationView::NewMessage(started_message(e->TextMessageStart_0.message_id@)),
        ),
{
    lemma_appended_message_is_announced(
        settled,
        before.messages,
        started_message(e->TextMessageStart_0.message_id@),
        change,
    );
}

} // verus!
