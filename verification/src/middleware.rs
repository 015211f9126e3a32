//! Stream transformers: functions from the events of a stream to the
//! events of a stream, and chains of them.

use vstd::prelude::*;
use crate::event::Event;
use crate::filter::{kept, FilterToolCallsMiddleware};

verus! {

impl StreamTransformer for FilterToolCallsMiddleware {
    /// The filter gives the events of the stream that it lets through, in
    /// order, and stays as it was: dropped calls belong to the stream.
    open spec fn transforms(&self, events: Seq<Event>, next: &Self, output: Seq<Event>) -> bool {
        &&& output == kept(self.config(), Seq::empty(), events)
        &&& next.config() == self.config()
        &&& next.blocked() == self.blocked()
    }

    fn transform(&mut self, events: Vec<Event>) -> (r: Vec<Event>) {
        FilterToolCallsMiddleware::transform(self, events)
    }
}

/// A transformer of event streams. It may drop, change or add events, and
/// may keep state from one call to the next.
pub trait StreamTransformer: Sized {
    /// Whether the transformer, in the state `self`, may make `output` of
    /// `events` and go on in the state `next`. An implementation that says
    /// nothing here lets every outcome pass.
    open spec fn transforms(&self, events: Seq<Event>, next: &Self, output: Seq<Event>) -> bool {
        true
    }

    /// Transforms the events of a stream.
    fn transform(&mut self, events: Vec<Event>) -> (r: Vec<Event>)
        ensures
            old(self).transforms(events@, final(self), r@),
    ;
}

/// Transformers to apply one after another, the first one first.
pub struct TransformerChain<T: StreamTransformer> {
    pub transformers: Vec<T>,
}

impl<T: StreamTransformer> TransformerChain<T> {
    /// The chain without transformers.
    pub fn new() -> (r: Self)
        ensures
            r.transformers@ == Seq::<T>::empty(),
    {
        TransformerChain { transformers: Vec::new() }
    }

    /// Hands the events through the transformers, the first one first:
    /// each is called once, on what the one before it gave, and what the
    /// last one gives is the result. The chain without transformers gives
    /// the events as they are.
    pub fn apply(&mut self, events: Vec<Event>) -> (r: Vec<Event>)
        ensures
            chain_transforms(old(self).transformers@, events@, final(self).transformers@, r@),
    {
        let mut stream = events;
        let mut done: Vec<T> = Vec::new();
        let mut todo: Vec<T> = Vec::new();
        std::mem::swap(&mut todo, &mut self.transformers);
        let ghost all = todo@;
        assert(all.subrange(0, 0) =~= Seq::<T>::empty());
        for transformer in it: todo
            invariant
                it.seq() == all,
                all == old(self).transformers@,
                chain_transforms(all.subrange(0, it.index() as int), events@, done@, stream@),
        {
            let ghost upto = all.subrange(0, it.index() + 1);
            let ghost handed = stream@;
            let ghost had = done@;
            let mut t = transformer;
            stream = t.transform(stream);
            done.push(t);
            proof {
                assert(upto.drop_last() =~= all.subrange(0, it.index() as int));
                assert(upto.last() == transformer);
                assert(done@.drop_last() =~= had);
                assert(upto.last().transforms(handed, &done@.last(), stream@));
            }
        }
        assert(all.subrange(0, all.len() as int) =~= all);
        self.transformers = done;
        stream
    }

    /// The chain with `transformer` added at its end.
    pub fn push(self, transformer: T) -> (r: Self)
        ensures
            r.transformers@ == self.transformers@.push(transformer),
    {
        let mut chain = self;
        chain.transformers.push(transformer);
        chain
    }
}

impl<T: StreamTransformer> Default for TransformerChain<T> {
    /// The chain without transformers.
    fn default() -> (r: Self)
        ensures
            r.transformers@ == Seq::<T>::empty(),
    {
        TransformerChain { transformers: Vec::new() }
    }
}

/// Whether the transformers `before`, applied to `events` one after
/// another, the first one first, may give `output` and go on as `after`:
/// each is handed what the one before it gave.
pub open spec fn chain_transforms<T: StreamTransformer>(
    before: Seq<T>,
    events: Seq<Event>,
    after: Seq<T>,
    output: Seq<Event>,
) -> bool
    decreases before.len(),
{
    if before.len() == 0 {
        after.len() == 0 && output == events
    } else {
        after.len() == before.len() && exists|handed: Seq<Event>|
            chain_transforms(before.drop_last(), events, after.drop_last(), handed)
                && #[trigger] before.last().transforms(handed, &after.last(), output)
    }
}

} // verus!
