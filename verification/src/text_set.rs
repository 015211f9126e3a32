//! A set of strings that remembers the order in which they came. Every
//! operation says that the members are distinct.

use vstd::prelude::*;

verus! {

/// The strings of `items`, as plain values.
pub open spec fn texts(items: Seq<String>) -> Seq<Seq<char>> {
    items.map_values(|s: String| s@)
}

/// `s` without its first occurrence of `t`; `s` itself where `t` does not
/// occur.
pub open spec fn without(s: Seq<Seq<char>>, t: Seq<char>) -> Seq<Seq<char>> {
    if s.contains(t) {
        s.remove(s.index_of(t))
    } else {
        s
    }
}

/// A set of strings. Its view is the sequence of its members in the order
/// in which they were inserted, each once.
#[derive(Debug)]
pub struct TextSet {
    items: Vec<String>,
}

impl View for TextSet {
    type V = Seq<Seq<char>>;

    closed spec fn view(&self) -> Seq<Seq<char>> {
        if texts(self.items@).no_duplicates() {
            texts(self.items@)
        } else {
            Seq::empty()
        }
    }
}

impl TextSet {
    #[verifier::type_invariant]
    closed spec fn inv(&self) -> bool {
        texts(self.items@).no_duplicates()
    }

    /// The members of every set are distinct.
    pub proof fn lemma_distinct(self)
        ensures
            self@.no_duplicates(),
    {
    }

    /// The empty set.
    pub fn new() -> (r: Self)
        ensures
            r@ == Seq::<Seq<char>>::empty(),
            r@.no_duplicates(),
    {
        let r = TextSet { items: Vec::new() };
        assert(texts(r.items@) =~= Seq::<Seq<char>>::empty());
        r
    }

    /// Whether no string is in the set.
    pub fn is_empty(&self) -> (r: bool)
        ensures
            r == (self@.len() == 0),
            self@.no_duplicates(),
    {
        proof {
            use_type_invariant(self);
        }
        self.items.len() == 0
    }

    /// The number of strings in the set.
    pub fn len(&self) -> (r: usize)
        ensures
            r == self@.len(),
            self@.no_duplicates(),
    {
        proof {
            use_type_invariant(self);
        }
        self.items.len()
    }

    /// Where `t` stands in the set, if it is a member.
    fn position(&self, t: &str) -> (r: Option<usize>)
        ensures
            r.is_some() == self@.contains(t@),
            r matches Some(i) ==> i < self@.len() && self@[i as int] == t@,
    {
        proof {
            use_type_invariant(self);
        }
        let wanted = t.to_owned();
        let mut i: usize = 0;
        while i < self.items.len()
            invariant
                i <= self.items.len(),
                wanted@ == t@,
                self@ == texts(self.items@),
                forall|k: int| 0 <= k < i ==> texts(self.items@)[k] != t@,
            decreases self.items.len() - i,
        {
            if self.items[i] == wanted {
                assert(texts(self.items@)[i as int] == t@);
                return Some(i);
            }
            i += 1;
        }
        None
    }

    /// Whether `t` is in the set.
    pub fn contains(&self, t: &str) -> (r: bool)
        ensures
            r == self@.contains(t@),
            self@.no_duplicates(),
    {
        proof {
            use_type_invariant(self);
        }
        self.position(t).is_some()
    }

    /// Puts `t` into the set. Gives `true` where `t` was not yet a member;
    /// it then comes last. Gives `false`, and changes nothing, where it
    /// was.
    pub fn insert(&mut self, t: String) -> (r: bool)
        ensures
            r == !old(self)@.contains(t@),
            final(self)@ == (if r {
                old(self)@.push(t@)
            } else {
                old(self)@
            }),
            old(self)@.no_duplicates(),
            final(self)@.no_duplicates(),
    {
        proof {
            use_type_invariant(&*self);
        }
        if self.position(t.as_str()).is_some() {
            false
        } else {
            let ghost before = self.items@;
            let mut items = Vec::new();
            std::mem::swap(&mut items, &mut self.items);
            items.push(t);
            proof {
                assert(texts(items@) =~= texts(before).push(t@));
                assert(!texts(before).contains(t@));
                assert forall|i: int, j: int|
                    0 <= i < texts(items@).len() && 0 <= j < texts(items@).len() && i != j implies texts(
                    items@,
                )[i] != texts(items@)[j] by {
                    if i < before.len() && j < before.len() {
                        assert(texts(before)[i] != texts(before)[j]);
                    } else if i < before.len() {
                        assert(texts(before).contains(texts(before)[i]));
                    } else {
                        assert(texts(before).contains(texts(before)[j]));
                    }
                }
            }
            *self = TextSet { items };
            true
        }
    }

    /// Takes `t` out of the set. Gives `true` where `t` was a member; the
    /// others keep their order.
    pub fn remove(&mut self, t: &str) -> (r: bool)
        ensures
            r == old(self)@.contains(t@),
            final(self)@ == without(old(self)@, t@),
            !final(self)@.contains(t@),
            old(self)@.no_duplicates(),
            final(self)@.no_duplicates(),
    {
        proof {
            use_type_invariant(&*self);
        }
        match self.position(t) {
            None => false,
            Some(i) => {
                let ghost before = self.items@;
                let mut items = Vec::new();
                std::mem::swap(&mut items, &mut self.items);
                items.remove(i);
                proof {
                    let s = texts(before);
                    assert(s.no_duplicates());
                    assert(s[i as int] == t@);
                    assert(s.index_of(t@) == i as int);
                    assert(texts(items@) =~= s.remove(i as int));
                    let after = texts(items@);
                    assert forall|a: int, b: int|
                        0 <= a < after.len() && 0 <= b < after.len() && a != b implies after[a]
                        != after[b] by {
                        let a0 = if a < i { a } else { a + 1 };
                        let b0 = if b < i { b } else { b + 1 };
                        assert(after[a] == s[a0] && after[b] == s[b0]);
                    }
                    assert forall|a: int| 0 <= a < after.len() implies after[a] != t@ by {
                        let a0 = if a < i { a } else { a + 1 };
                        assert(after[a] == s[a0]);
                    }
                }
                *self = TextSet { items };
                true
            },
        }
    }

    /// Takes every string out of the set.
    pub fn clear(&mut self)
        ensures
            final(self)@ == Seq::<Seq<char>>::empty(),
            final(self)@.no_duplicates(),
    {
        let r = TextSet { items: Vec::new() };
        assert(texts(r.items@) =~= Seq::<Seq<char>>::empty());
        *self = r;
    }

    /// The members, in the order in which they were inserted.
    pub fn to_vec(&self) -> (r: Vec<String>)
        ensures
            texts(r@) == self@,
            self@.no_duplicates(),
    {
        proof {
            use_type_invariant(self);
        }
        let mut out: Vec<String> = Vec::new();
        let mut i: usize = 0;
        while i < self.items.len()
            invariant
                i <= self.items.len(),
                out@.len() == i,
                forall|k: int| 0 <= k < i ==> out@[k]@ == self.items@[k]@,
            decreases self.items.len() - i,
        {
            out.push(self.items[i].clone());
            i += 1;
        }
        assert(texts(out@) =~= texts(self.items@));
        out
    }
}

impl Clone for TextSet {
    fn clone(&self) -> (r: Self)
        ensures
            r@ == self@,
            r@.no_duplicates(),
    {
        proof {
            use_type_invariant(self);
        }
        TextSet { items: self.to_vec() }
    }
}

} // verus!
