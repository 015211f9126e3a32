//! The tool-call filter: a stream transformer that lets through the calls
//! of allowed tools only, and drops every event of a call it has dropped
//! the start of.

use vstd::prelude::*;
use crate::event::Event;
use crate::text_set::{without, TextSet};

verus! {

/// Which tools the filter lets through.
#[derive(Debug)]
pub enum FilterConfig {
    /// Only the tools in this set; every other tool is filtered.
    Allow(TextSet),
    /// Every tool but those in this set.
    Block(TextSet),
}

/// Which tools a filter lets through, as plain values.
pub enum FilterConfigView {
    Allow(Seq<Seq<char>>),
    Block(Seq<Seq<char>>),
}

impl View for FilterConfig {
    type V = FilterConfigView;

    open spec fn view(&self) -> FilterConfigView {
        match *self {
            FilterConfig::Allow(s) => FilterConfigView::Allow(s@),
            FilterConfig::Block(s) => FilterConfigView::Block(s@),
        }
    }
}

/// The strings of `names`, as plain values.
pub open spec fn name_texts(names: Seq<&str>) -> Seq<Seq<char>> {
    names.map_values(|n: &str| n@)
}

/// What a sequence with one more element holds.
proof fn lemma_push_contains(s: Seq<Seq<char>>, x: Seq<char>, t: Seq<char>)
    ensures
        s.push(x).contains(t) <==> (s.contains(t) || t == x),
{
    if s.contains(t) {
        let k = choose|k: int| 0 <= k < s.len() && s[k] == t;
        assert(s.push(x)[k] == t);
    }
    if t == x {
        assert(s.push(x)[s.len() as int] == t);
    }
    if s.push(x).contains(t) {
        let k = choose|k: int| 0 <= k < s.push(x).len() && s.push(x)[k] == t;
        if k < s.len() {
            assert(s[k] == t);
        }
    }
}

/// The set that holds each of `names`.
fn set_of(names: &Vec<&str>) -> (r: TextSet)
    ensures
        forall|t: Seq<char>| r@.contains(t) <==> name_texts(names@).contains(t),
{
    let mut set = TextSet::new();
    let mut i: usize = 0;
    while i < names.len()
        invariant
            i <= names.len(),
            forall|t: Seq<char>|
                set@.contains(t) <==> name_texts(names@).subrange(0, i as int).contains(t),
        decreases names.len() - i,
    {
        let ghost had = set@;
        let ghost upto = name_texts(names@).subrange(0, i as int);
        let ghost next = name_texts(names@).subrange(0, i + 1);
        set.insert(names[i].to_owned());
        proof {
            let x = names@[i as int]@;
            assert(next =~= upto.push(x));
            assert forall|t: Seq<char>| set@.contains(t) <==> next.contains(t) by {
                lemma_push_contains(had, x, t);
                lemma_push_contains(upto, x, t);
            }
        }
        i += 1;
    }
    assert(name_texts(names@).subrange(0, names@.len() as int) =~= name_texts(names@));
    set
}

impl Clone for FilterConfig {
    fn clone(&self) -> (r: Self)
        ensures
            r@ == self@,
    {
        match self {
            FilterConfig::Allow(names) => FilterConfig::Allow(names.clone()),
            FilterConfig::Block(names) => FilterConfig::Block(names.clone()),
        }
    }
}

impl FilterConfig {
    /// Lets through only the named tools.
    pub fn allow(tools: Vec<&str>) -> (r: Self)
        ensures
            r@ is Allow,
            forall|t: Seq<char>| filtered(r@, t) <==> !name_texts(tools@).contains(t),
    {
        FilterConfig::Allow(set_of(&tools))
    }

    /// Lets through every tool but the named ones.
    pub fn block(tools: Vec<&str>) -> (r: Self)
        ensures
            r@ is Block,
            forall|t: Seq<char>| filtered(r@, t) <==> name_texts(tools@).contains(t),
    {
        FilterConfig::Block(set_of(&tools))
    }
}

/// Whether the calls of the tool `name` are filtered out.
pub open spec fn filtered(config: FilterConfigView, name: Seq<char>) -> bool {
    match config {
        FilterConfigView::Allow(allowed) => !allowed.contains(name),
        FilterConfigView::Block(blocked) => blocked.contains(name),
    }
}

/// Whether the filter lets the event `e` through, with the calls `blocked`
/// dropped so far.
///
/// A tool call start goes through unless its tool is filtered. Arguments,
/// end, result and chunk go through unless they belong to a dropped call;
/// a chunk that names no call always goes through. Every other event goes
/// through.
pub open spec fn forwards(config: FilterConfigView, blocked: Seq<Seq<char>>, e: Event) -> bool {
    match e {
        Event::ToolCallStart(x) => !filtered(config, x.tool_call_name@),
        Event::ToolCallArgs(x) => !blocked.contains(x.tool_call_id@),
        Event::ToolCallEnd(x) => !blocked.contains(x.tool_call_id@),
        Event::ToolCallResult(x) => !blocked.contains(x.tool_call_id@),
        Event::ToolCallChunk(x) => match x.tool_call_id {
            Some(id) => !blocked.contains(id@),
            None => true,
        },
        _ => true,
    }
}

/// The dropped calls after the event `e`: the start of a filtered tool
/// adds its call, unless it is there already; the result of a dropped call
/// takes it out again.
pub open spec fn blocked_after(
    config: FilterConfigView,
    blocked: Seq<Seq<char>>,
    e: Event,
) -> Seq<Seq<char>> {
    match e {
        Event::ToolCallStart(x) => if filtered(config, x.tool_call_name@) && !blocked.contains(
            x.tool_call_id@,
        ) {
            blocked.push(x.tool_call_id@)
        } else {
            blocked
        },
        Event::ToolCallResult(x) => without(blocked, x.tool_call_id@),
        _ => blocked,
    }
}

/// The dropped calls after the events `events` in order.
pub open spec fn blocked_after_all(
    config: FilterConfigView,
    blocked: Seq<Seq<char>>,
    events: Seq<Event>,
) -> Seq<Seq<char>>
    decreases events.len(),
{
    if events.len() == 0 {
        blocked
    } else {
        blocked_after(config, blocked_after_all(config, blocked, events.drop_last()), events.last())
    }
}

/// The events of `events` that the filter lets through, in order.
pub open spec fn kept(
    config: FilterConfigView,
    blocked: Seq<Seq<char>>,
    events: Seq<Event>,
) -> Seq<Event>
    decreases events.len(),
{
    if events.len() == 0 {
        Seq::empty()
    } else {
        let before = kept(config, blocked, events.drop_last());
        if forwards(config, blocked_after_all(config, blocked, events.drop_last()), events.last()) {
            before.push(events.last())
        } else {
            before
        }
    }
}

/// The tool-call filter. The calls it has dropped the start of belong to
/// one stream: [`FilterToolCallsMiddleware::transform`] starts each stream
/// with none, and [`FilterToolCallsMiddleware::for_stream`] gives the
/// filter of one stream that is fed event by event.
#[derive(Debug)]
pub struct FilterToolCallsMiddleware {
    config: FilterConfig,
    blocked_ids: TextSet,
}

impl FilterToolCallsMiddleware {
    /// The configuration of the filter, in specifications.
    pub closed spec fn config(&self) -> FilterConfigView {
        self.config@
    }

    /// The calls dropped so far, in specifications.
    pub closed spec fn blocked(&self) -> Seq<Seq<char>> {
        self.blocked_ids@
    }

    /// A filter with the given configuration that has dropped nothing.
    pub fn new(config: FilterConfig) -> (r: Self)
        ensures
            r.config() == config@,
            r.blocked() == Seq::<Seq<char>>::empty(),
    {
        FilterToolCallsMiddleware { config, blocked_ids: TextSet::new() }
    }

    /// Whether the calls of the tool `tool_name` are filtered out.
    pub fn should_filter(&self, tool_name: &str) -> (r: bool)
        ensures
            r == filtered(self.config(), tool_name@),
    {
        match &self.config {
            FilterConfig::Allow(allowed) => !allowed.contains(tool_name),
            FilterConfig::Block(blocked) => blocked.contains(tool_name),
        }
    }

    /// Decides on one event of the stream: `true` where it goes through,
    /// `false` where it is dropped. Keeps track of the dropped calls.
    pub fn filter_event(&mut self, event: &Event) -> (r: bool)
        ensures
            r == forwards(old(self).config(), old(self).blocked(), *event),
            final(self).blocked() == blocked_after(
                old(self).config(),
                old(self).blocked(),
                *event,
            ),
            final(self).config() == old(self).config(),
    {
        match event {
            Event::ToolCallStart(e) => {
                if self.should_filter(e.tool_call_name.as_str()) {
                    self.blocked_ids.insert(e.tool_call_id.to_string());
                    false
                } else {
                    true
                }
            },
            Event::ToolCallArgs(e) => !self.blocked_ids.contains(e.tool_call_id.as_str()),
            Event::ToolCallEnd(e) => !self.blocked_ids.contains(e.tool_call_id.as_str()),
            Event::ToolCallResult(e) => !self.blocked_ids.remove(e.tool_call_id.as_str()),
            Event::ToolCallChunk(e) => match &e.tool_call_id {
                Some(id) => !self.blocked_ids.contains(id.as_str()),
                None => true,
            },
            _ => true,
        }
    }

    /// The calls dropped so far, in the order in which they were dropped.
    pub fn blocked_ids(&self) -> (r: Vec<String>)
        ensures
            crate::text_set::texts(r@) == self.blocked(),
    {
        self.blocked_ids.to_vec()
    }

    /// The filter of one stream: the same configuration, and no call
    /// dropped yet.
    pub fn for_stream(&self) -> (r: Self)
        ensures
            r.config() == self.config(),
            r.blocked() == Seq::<Seq<char>>::empty(),
    {
        FilterToolCallsMiddleware { config: self.config.clone(), blocked_ids: TextSet::new() }
    }

    /// Filters the events of one stream: gives those that go through, in
    /// order. The calls dropped belong to this stream alone: it starts with
    /// none, and the filter itself stays as it was.
    pub fn transform(&mut self, events: Vec<Event>) -> (r: Vec<Event>)
        ensures
            r@ == kept(old(self).config(), Seq::empty(), events@),
            final(self).blocked() == old(self).blocked(),
            final(self).config() == old(self).config(),
    {
        let mut stream = self.for_stream();
        let mut out: Vec<Event> = Vec::new();
        let ghost config = self.config();
        let ghost start = Seq::<Seq<char>>::empty();
        assert(events@.subrange(0, 0) =~= Seq::<Event>::empty());
        for event in it: events
            invariant
                it.seq() == events@,
                stream.config() == config,
                stream.blocked() == blocked_after_all(
                    config,
                    start,
                    events@.subrange(0, it.index() as int),
                ),
                out@ == kept(config, start, events@.subrange(0, it.index() as int)),
        {
            let ghost upto = events@.subrange(0, it.index() + 1);
            proof {
                assert(upto.drop_last() =~= events@.subrange(0, it.index() as int));
                assert(upto.last() == event);
            }
            if stream.filter_event(&event) {
                out.push(event);
            }
        }
        assert(events@.subrange(0, events@.len() as int) =~= events@);
        out
    }
}

} // verus!
