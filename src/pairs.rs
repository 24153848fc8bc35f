//! Keyed stores of values.
use vstd::prelude::*;
use crate::value::{Value, ValueView};

verus! {

/// The view of an optional value.
pub open spec fn opt_view(r: Option<Value>) -> Option<ValueView> {
    match r {
        Some(v) => Some(v@),
        None => None,
    }
}

/// What a store holds under `key`, if anything.
pub open spec fn lookup(m: Map<Seq<char>, ValueView>, key: Seq<char>) -> Option<ValueView> {
    if m.contains_key(key) {
        Some(m[key])
    } else {
        None
    }
}

/// Keyed read and write of values.
pub trait Pairs {
    /// The store's contents, as a map from keys to values.
    spec fn pairs(&self) -> Map<Seq<char>, ValueView>;

    /// The value under `key`, if any.
    fn get(&self, key: &str) -> (r: Option<Value>)
        ensures
            opt_view(r) == lookup(self.pairs(), key@),
    ;

    /// Stores `value` under `key` and hands back the value it displaced, if any.
    fn put(&mut self, key: &str, value: &Value) -> (r: Option<Value>)
        ensures
            final(self).pairs() == old(self).pairs().insert(key@, value@),
            opt_view(r) == lookup(old(self).pairs(), key@),
    ;
}

/// A store that the evaluator can create empty and copy: a copy is what each
/// lock attempt runs against.
pub trait Pairable: Pairs + Sized {
    /// An empty store.
    fn empty() -> (r: Self)
        ensures
            r.pairs() == Map::<Seq<char>, ValueView>::empty(),
    ;

    /// A store with the same contents.
    fn duplicate(&self) -> (r: Self)
        ensures
            r.pairs() == self.pairs(),
    ;
}

/// Distinct keys, and each entry is what the map holds under its key, and
/// every key of the map has an entry.
spec fn entries_hold(entries: Seq<(String, Value)>, contents: Map<Seq<char>, ValueView>) -> bool {
    &&& forall|i: int, j: int|
        0 <= i < entries.len() && 0 <= j < entries.len() && i != j
            ==> #[trigger] entries[i].0@ != #[trigger] entries[j].0@
    &&& forall|i: int|
        0 <= i < entries.len() ==> {
            &&& contents.contains_key(#[trigger] entries[i].0@)
            &&& contents[entries[i].0@] == entries[i].1@
        }
    &&& forall|k: Seq<char>|
        #[trigger] contents.contains_key(k) ==> exists|i: int|
            0 <= i < entries.len() && #[trigger] entries[i].0@ == k
}

/// An in-memory store: a list of entries with distinct keys.
pub struct ContextPairs {
    entries: Vec<(String, Value)>,
    contents: Ghost<Map<Seq<char>, ValueView>>,
}

impl ContextPairs {
    #[verifier::type_invariant]
    spec fn well_formed(self) -> bool {
        entries_hold(self.entries@, self.contents@)
    }

    /// An empty store.
    pub fn new() -> (r: ContextPairs)
        ensures
            r.pairs() == Map::<Seq<char>, ValueView>::empty(),
    {
        ContextPairs { entries: Vec::new(), contents: Ghost(Map::empty()) }
    }

    /// The index of the entry under `key`, if there is one.
    fn find(&self, key: &String) -> (r: Option<usize>)
        ensures
            match r {
                Some(i) => i < self.entries@.len() && self.entries@[i as int].0@ == key@,
                None => !self.pairs().contains_key(key@),
            },
    {
        proof {
            use_type_invariant(self);
        }
        let mut i: usize = 0;
        while i < self.entries.len()
            invariant
                i <= self.entries@.len(),
                forall|j: int| 0 <= j < i ==> #[trigger] self.entries@[j].0@ != key@,
            decreases self.entries.len() - i,
        {
            if self.entries[i].0 == *key {
                return Some(i);
            }
            i = i + 1;
        }
        None
    }
}

impl Pairs for ContextPairs {
    closed spec fn pairs(&self) -> Map<Seq<char>, ValueView> {
        self.contents@
    }

    fn get(&self, key: &str) -> (r: Option<Value>) {
        proof {
            use_type_invariant(self);
        }
        let k = String::from_str(key);
        match self.find(&k) {
            Some(i) => Some(self.entries[i].1.clone()),
            None => None,
        }
    }

    fn put(&mut self, key: &str, value: &Value) -> (r: Option<Value>) {
        proof {
            use_type_invariant(&*self);
        }
        let k = String::from_str(key);
        let found = self.find(&k);
        let mut this = ContextPairs::new();
        std::mem::swap(&mut this, self);
        proof {
            use_type_invariant(&this);
        }
        let ghost old_contents = this.contents@;
        let ContextPairs { mut entries, contents: _ } = this;
        let ghost old_entries = entries@;
        let ghost contents = old_contents.insert(key@, value@);
        let r = match found {
            Some(i) => {
                let displaced = entries[i].1.clone();
                entries.set(i, (k, value.clone()));
                assert forall|j: int| 0 <= j < entries@.len() implies {
                    &&& contents.contains_key(#[trigger] entries@[j].0@)
                    &&& contents[entries@[j].0@] == entries@[j].1@
                } by {
                    if j != i {
                        assert(old_entries[j].0@ != old_entries[i as int].0@);
                    }
                }
                assert forall|q: Seq<char>| #[trigger] contents.contains_key(q) implies exists|j: int|
                    0 <= j < entries@.len() && #[trigger] entries@[j].0@ == q by {
                    if q != key@ {
                        let j = choose|j: int| 0 <= j < old_entries.len() && #[trigger] old_entries[j].0@ == q;
                        assert(entries@[j].0@ == q);
                    } else {
                        assert(entries@[i as int].0@ == q);
                    }
                }
                Some(displaced)
            },
            None => {
                entries.push((k, value.clone()));
                let ghost n: int = entries@.len() - 1;
                assert forall|j: int| 0 <= j < entries@.len() implies {
                    &&& contents.contains_key(#[trigger] entries@[j].0@)
                    &&& contents[entries@[j].0@] == entries@[j].1@
                } by {
                    if j < n {
                        assert(entries@[j] == old_entries[j]);
                        assert(old_entries[j].0@ != key@);
                    }
                }
                assert forall|q: Seq<char>| #[trigger] contents.contains_key(q) implies exists|j: int|
                    0 <= j < entries@.len() && #[trigger] entries@[j].0@ == q by {
                    if q != key@ {
                        let j = choose|j: int| 0 <= j < old_entries.len() && #[trigger] old_entries[j].0@ == q;
                        assert(entries@[j] == old_entries[j]);
                    } else {
                        assert(entries@[n].0@ == q);
                    }
                }
                assert forall|a: int, b: int|
                    0 <= a < entries@.len() && 0 <= b < entries@.len() && a != b
                    implies #[trigger] entries@[a].0@ != #[trigger] entries@[b].0@ by {
                    if a < n && b < n {
                        assert(entries@[a] == old_entries[a]);
                        assert(entries@[b] == old_entries[b]);
                    } else if a < n {
                        assert(entries@[a] == old_entries[a]);
                    } else if b < n {
                        assert(entries@[b] == old_entries[b]);
                    }
                }
                None
            },
        };
        assert(entries_hold(entries@, contents));
        *self = ContextPairs { entries, contents: Ghost(contents) };
        r
    }
}

impl Pairable for ContextPairs {
    fn empty() -> (r: Self) {
        ContextPairs::new()
    }

    fn duplicate(&self) -> (r: Self) {
        proof {
            use_type_invariant(self);
        }
        let mut entries: Vec<(String, Value)> = Vec::new();
        let mut i: usize = 0;
        while i < self.entries.len()
            invariant
                i <= self.entries@.len(),
                entries@.len() == i,
                forall|j: int|
                    0 <= j < i ==> #[trigger] entries@[j].0@ == self.entries@[j].0@
                        && entries@[j].1@ == self.entries@[j].1@,
            decreases self.entries.len() - i,
        {
            let k = self.entries[i].0.clone();
            let v = self.entries[i].1.clone();
            entries.push((k, v));
            i = i + 1;
        }
        assert forall|a: int, b: int|
            0 <= a < entries@.len() && 0 <= b < entries@.len() && a != b
            implies #[trigger] entries@[a].0@ != #[trigger] entries@[b].0@ by {
            assert(self.entries@[a].0@ != self.entries@[b].0@);
        }
        assert forall|j: int| 0 <= j < entries@.len() implies {
            &&& self.contents@.contains_key(#[trigger] entries@[j].0@)
            &&& self.contents@[entries@[j].0@] == entries@[j].1@
        } by {
            assert(self.contents@.contains_key(self.entries@[j].0@));
        }
        assert forall|q: Seq<char>| #[trigger] self.contents@.contains_key(q) implies exists|j: int|
            0 <= j < entries@.len() && #[trigger] entries@[j].0@ == q by {
            let j = choose|j: int| 0 <= j < self.entries@.len() && #[trigger] self.entries@[j].0@ == q;
            assert(entries@[j].0@ == q);
        }
        assert(entries_hold(entries@, self.contents@));
        ContextPairs { entries, contents: Ghost(self.contents@) }
    }
}

} // verus!
