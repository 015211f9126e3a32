//! A map from strings to strings.

use vstd::prelude::*;
use vstd::string::StrSliceExecFns;

verus! {

/// A list of name and value pairs, as plain values.
pub open spec fn pairs(entries: Seq<(String, String)>) -> Seq<(Seq<char>, Seq<char>)> {
    entries.map_values(|e: (String, String)| (e.0@, e.1@))
}

/// The map that a list of pairs stands for: each name maps to the value
/// of the last pair that has it.
pub open spec fn map_of(entries: Seq<(Seq<char>, Seq<char>)>) -> Map<Seq<char>, Seq<char>>
    decreases entries.len(),
{
    if entries.len() == 0 {
        Map::empty()
    } else {
        map_of(entries.drop_last()).insert(entries.last().0, entries.last().1)
    }
}

/// The code of a character with the upper-case letters of ASCII taken as
/// their lower-case ones.
pub open spec fn lower_code(c: char) -> int {
    if 'A' <= c && c <= 'Z' {
        c as u32 + 32
    } else {
        c as u32 as int
    }
}

/// Whether two names are the same but for the case of ASCII letters, as
/// the names of HTTP headers are compared.
pub open spec fn same_name(a: Seq<char>, b: Seq<char>) -> bool {
    a.len() == b.len() && forall|i: int| 0 <= i < a.len() ==> lower_code(a[i]) == lower_code(b[i])
}

/// The value of the first pair of `entries` whose name is `name`, but for
/// the case of ASCII letters.
pub open spec fn first_value(entries: Seq<(Seq<char>, Seq<char>)>, name: Seq<char>) -> Option<
    Seq<char>,
>
    decreases entries.len(),
{
    if entries.len() == 0 {
        None
    } else if same_name(entries[0].0, name) {
        Some(entries[0].1)
    } else {
        first_value(entries.drop_first(), name)
    }
}

/// What a map holds for a name, if anything.
pub open spec fn lookup(m: Map<Seq<char>, Seq<char>>, name: Seq<char>) -> Option<Seq<char>> {
    if m.dom().contains(name) {
        Some(m[name])
    } else {
        None
    }
}

/// A map from strings to strings.
#[derive(Debug)]
pub struct TextMap {
    entries: Vec<(String, String)>,
}

impl View for TextMap {
    type V = Map<Seq<char>, Seq<char>>;

    closed spec fn view(&self) -> Map<Seq<char>, Seq<char>> {
        map_of(pairs(self.entries@))
    }
}

impl TextMap {
    /// The empty map.
    pub fn new() -> (r: Self)
        ensures
            r@ == Map::<Seq<char>, Seq<char>>::empty(),
    {
        let r = TextMap { entries: Vec::new() };
        assert(pairs(r.entries@) =~= Seq::<(Seq<char>, Seq<char>)>::empty());
        r
    }

    /// Maps `name` to `value`, in place of what it was mapped to.
    pub fn insert(&mut self, name: String, value: String)
        ensures
            final(self)@ == old(self)@.insert(name@, value@),
    {
        let ghost before = pairs(self.entries@);
        self.entries.push((name, value));
        proof {
            let after = pairs(self.entries@);
            assert(after =~= before.push((name@, value@)));
            assert(after.drop_last() =~= before);
        }
    }

    /// What `name` is mapped to, if anything.
    pub fn get(&self, name: &str) -> (r: Option<&str>)
        ensures
            r.is_some() == self@.dom().contains(name@),
            r matches Some(v) ==> v@ == self@[name@],
    {
        let wanted = name.to_owned();
        let mut i: usize = self.entries.len();
        let ghost all = pairs(self.entries@);
        assert(all.subrange(0, i as int) =~= all);
        while i > 0
            invariant
                i <= self.entries@.len(),
                all == pairs(self.entries@),
                wanted@ == name@,
                lookup(map_of(all), name@) == lookup(map_of(all.subrange(0, i as int)), name@),
            decreases i,
        {
            let ghost upto = all.subrange(0, i as int);
            proof {
                assert(upto.drop_last() =~= all.subrange(0, i - 1));
                assert(upto.last() == all[i - 1]);
            }
            if self.entries[i - 1].0 == wanted {
                return Some(self.entries[i - 1].1.as_str());
            }
            i -= 1;
        }
        proof {
            assert(all.subrange(0, 0) =~= Seq::<(Seq<char>, Seq<char>)>::empty());
        }
        None
    }

    /// Whether `name` is mapped to anything.
    pub fn contains_key(&self, name: &str) -> (r: bool)
        ensures
            r == self@.dom().contains(name@),
    {
        self.get(name).is_some()
    }
}

impl Clone for TextMap {
    fn clone(&self) -> (r: Self)
        ensures
            r@ == self@,
    {
        let mut out: Vec<(String, String)> = Vec::new();
        let mut i: usize = 0;
        while i < self.entries.len()
            invariant
                i <= self.entries@.len(),
                out@.len() == i,
                forall|k: int| 0 <= k < i ==> out@[k].0@ == self.entries@[k].0@ && out@[k].1@
                    == self.entries@[k].1@,
            decreases self.entries@.len() - i,
        {
            out.push((self.entries[i].0.clone(), self.entries[i].1.clone()));
            i += 1;
        }
        assert(pairs(out@) =~= pairs(self.entries@));
        TextMap { entries: out }
    }
}

/// The code of a character with the upper-case letters of ASCII taken as
/// their lower-case ones.
fn lower_code_of(c: char) -> (r: u32)
    ensures
        r == lower_code(c),
{
    if 'A' <= c && c <= 'Z' {
        c as u32 + 32
    } else {
        c as u32
    }
}

/// Whether two names are the same but for the case of ASCII letters.
pub fn eq_ignoring_case(a: &str, b: &str) -> (r: bool)
    ensures
        r == same_name(a@, b@),
{
    let n = a.unicode_len();
    if b.unicode_len() != n {
        return false;
    }
    let mut i: usize = 0;
    while i < n
        invariant
            i <= n,
            n == a@.len(),
            n == b@.len(),
            forall|k: int| 0 <= k < i ==> lower_code(a@[k]) == lower_code(b@[k]),
        decreases n - i,
    {
        if lower_code_of(a.get_char(i)) != lower_code_of(b.get_char(i)) {
            return false;
        }
        i += 1;
    }
    true
}

/// The value of the first pair of `entries` whose name is `name`, but for
/// the case of ASCII letters.
pub fn find_first(entries: &Vec<(String, String)>, name: &str) -> (r: Option<String>)
    ensures
        r.is_some() == first_value(pairs(entries@), name@).is_some(),
        r matches Some(v) ==> Some(v@) == first_value(pairs(entries@), name@),
{
    let mut i: usize = 0;
    let ghost all = pairs(entries@);
    assert(all.subrange(0, all.len() as int) =~= all);
    while i < entries.len()
        invariant
            i <= entries@.len(),
            all == pairs(entries@),
            first_value(all, name@) == first_value(all.subrange(i as int, all.len() as int), name@),
        decreases entries@.len() - i,
    {
        let ghost rest = all.subrange(i as int, all.len() as int);
        proof {
            assert(rest.drop_first() =~= all.subrange(i + 1, all.len() as int));
            assert(rest[0] == all[i as int]);
        }
        if eq_ignoring_case(entries[i].0.as_str(), name) {
            return Some(entries[i].1.clone());
        }
        i += 1;
    }
    proof {
        assert(all.subrange(all.len() as int, all.len() as int) =~= Seq::<
            (Seq<char>, Seq<char>),
        >::empty());
    }
    None
}

} // verus!
