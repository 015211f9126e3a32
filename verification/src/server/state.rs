//! The state manager: holds the state of an agent and, for every change,
//! gives the diff of the old state against the new one as a JSON Patch.

use vstd::prelude::*;
use crate::json::{
    diff_documents, json_diff, json_null, json_patched, json_text, patch_document, patch_texts,
    JsonValue, PatchOp,
};
use crate::server::error::StateError;

verus! {

/// A JSON Patch (RFC 6902): operations to apply in order.
#[derive(Debug)]
pub struct StatePatch {
    ops: Vec<PatchOp>,
}

impl View for StatePatch {
    type V = Seq<Seq<char>>;

    /// The operations of the patch, each as its JSON text.
    closed spec fn view(&self) -> Seq<Seq<char>> {
        patch_texts(self.ops@)
    }
}

impl StatePatch {
    /// The patch of the given operations.
    pub fn new(ops: Vec<PatchOp>) -> (r: Self)
        ensures
            r@ == patch_texts(ops@),
    {
        StatePatch { ops }
    }

    /// The patch without operations.
    pub fn empty() -> (r: Self)
        ensures
            r@ == Seq::<Seq<char>>::empty(),
    {
        let r = StatePatch { ops: Vec::new() };
        assert(patch_texts(r.ops@) =~= Seq::<Seq<char>>::empty());
        r
    }

    /// Whether the patch has no operations.
    pub fn is_empty(&self) -> (r: bool)
        ensures
            r == (self@.len() == 0),
    {
        self.ops.len() == 0
    }

    /// The number of operations.
    pub fn len(&self) -> (r: usize)
        ensures
            r == self@.len(),
    {
        self.ops.len()
    }

    /// The operations, in order.
    pub fn operations(&self) -> (r: &Vec<PatchOp>)
        ensures
            patch_texts(r@) == self@,
    {
        &self.ops
    }

    /// The operations, in order, owned.
    pub fn into_inner(self) -> (r: Vec<PatchOp>)
        ensures
            patch_texts(r@) == self@,
    {
        self.ops
    }
}

/// The state of an agent.
#[derive(Debug)]
pub struct StateManager {
    state: JsonValue,
}

impl View for StateManager {
    type V = Seq<char>;

    /// The state, as its JSON text.
    open spec fn view(&self) -> Seq<char> {
        json_text(self.value())
    }
}

impl Default for StateManager {
    /// A manager of the state JSON `null`.
    fn default() -> (r: Self)
        ensures
            r@ == "null"@,
    {
        StateManager { state: json_null() }
    }
}

impl StateManager {
    /// The state, in specifications.
    pub closed spec fn value(&self) -> JsonValue {
        self.state
    }

    /// A manager of the state `initial`.
    pub fn new(initial: JsonValue) -> (r: Self)
        ensures
            r.value() == initial,
            r@ == json_text(initial),
    {
        StateManager { state: initial }
    }

    /// Runs `f` on the state and gives what it gives.
    pub fn read<R, F: FnOnce(&JsonValue) -> R>(&self, f: F) -> (r: R)
        requires
            f.requires((&self.value(),)),
        ensures
            f.ensures((&self.value(),), r),
    {
        f(&self.state)
    }

    /// A copy of the state.
    pub fn snapshot(&self) -> (r: JsonValue)
        ensures
            r == self.value(),
            json_text(r) == self@,
    {
        self.state.clone()
    }

    /// Changes the state to what `f` makes of it, and gives the diff of
    /// the old state against the new one as a patch.
    pub fn update<F: FnOnce(JsonValue) -> JsonValue>(&mut self, f: F) -> (r: Result<
        StatePatch,
        StateError,
    >)
        requires
            f.requires((old(self).value(),)),
        ensures
            f.ensures((old(self).value(),), final(self).value()),
            r matches Ok(patch) && patch@ == json_diff(old(self)@, final(self)@),
    {
        let before = self.state.clone();
        let after = f(self.state.clone());
        let ops = diff_documents(&before, &after);
        self.state = after;
        Ok(StatePatch { ops })
    }

    /// Replaces the state, and gives the diff of the old state against
    /// the new one as a patch.
    pub fn replace(&mut self, new_state: JsonValue) -> (r: Result<StatePatch, StateError>)
        ensures
            final(self).value() == new_state,
            r matches Ok(patch) && patch@ == json_diff(old(self)@, final(self)@),
    {
        let ops = diff_documents(&self.state, &new_state);
        self.state = new_state;
        Ok(StatePatch { ops })
    }

    /// Changes the state as [`StateManager::update`] does, but only where
    /// `predicate` holds of it; otherwise leaves the state as it is and
    /// gives no patch.
    pub fn update_if<P: FnOnce(&JsonValue) -> bool, F: FnOnce(JsonValue) -> JsonValue>(
        &mut self,
        predicate: P,
        f: F,
    ) -> (r: Result<Option<StatePatch>, StateError>)
        requires
            predicate.requires((&old(self).value(),)),
            f.requires((old(self).value(),)),
        ensures
            r matches Ok(given) && match given {
                Some(patch) => {
                    &&& predicate.ensures((&old(self).value(),), true)
                    &&& f.ensures((old(self).value(),), final(self).value())
                    &&& patch@ == json_diff(old(self)@, final(self)@)
                },
                None => predicate.ensures((&old(self).value(),), false) && final(self).value()
                    == old(self).value(),
            },
    {
        if !predicate(&self.state) {
            return Ok(None);
        }
        let before = self.state.clone();
        let after = f(self.state.clone());
        let ops = diff_documents(&before, &after);
        self.state = after;
        Ok(Some(StatePatch { ops }))
    }

    /// Applies a patch to the state. Where an operation fails the state
    /// stays as it was, and the error says that the patch failed.
    pub fn apply_patch(&mut self, patch: &Vec<PatchOp>) -> (r: Result<(), StateError>)
        ensures
            r.is_ok() == json_patched(old(self)@, patch_texts(patch@)).is_some(),
            r.is_ok() ==> Some(final(self)@) == json_patched(old(self)@, patch_texts(patch@)),
            r matches Err(e) ==> final(self).value() == old(self).value() && (e matches StateError::PatchFailed {
                op,
                path,
                ..
            } && op@ == "apply"@ && path@ == "unknown"@),
    {
        match patch_document(&self.state, patch) {
            Ok(patched) => {
                self.state = patched;
                Ok(())
            },
            Err(reason) => Err(
                StateError::PatchFailed {
                    op: "apply".to_owned(),
                    path: "unknown".to_owned(),
                    reason,
                },
            ),
        }
    }
}

} // verus!
