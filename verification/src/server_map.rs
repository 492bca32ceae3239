//! The mapping from server identifier to server specification.
//!
//! A `ServerMap` is the unit of exchange with an external tool's live
//! configuration: unordered with respect to insertion, with unique keys.
//! It is held as a vector of pairs and abstracted, through its view, as a
//! `Map<Seq<char>, Value>`.

use vstd::prelude::*;

use serde_json::Value;

use crate::json::clone_value;

verus! {

/// True when some entry of `s` holds the key `k`.
pub open spec fn has_key(s: Seq<(String, Value)>, k: Seq<char>) -> bool {
    exists|i: int| 0 <= i < s.len() && s[i].0@ == k
}

/// The index of the entry of `s` that holds the key `k`.
pub open spec fn index_of_key(s: Seq<(String, Value)>, k: Seq<char>) -> int {
    choose|i: int| 0 <= i < s.len() && s[i].0@ == k
}

/// No two entries of `s` hold the same key.
pub open spec fn unique_keys(s: Seq<(String, Value)>) -> bool {
    forall|i: int, j: int| 0 <= i < j < s.len() ==> s[i].0@ != s[j].0@
}

/// The mapping that the entries of `s` spell out.
pub open spec fn map_of(s: Seq<(String, Value)>) -> Map<Seq<char>, Value> {
    Map::new(|k: Seq<char>| has_key(s, k), |k: Seq<char>| s[index_of_key(s, k)].1)
}

/// Appending an entry whose key is fresh adds exactly that entry to the
/// spelled-out mapping.
proof fn lemma_map_of_push(s: Seq<(String, Value)>, p: (String, Value))
    requires
        unique_keys(s),
        !has_key(s, p.0@),
    ensures
        unique_keys(s.push(p)),
        map_of(s.push(p)) == map_of(s).insert(p.0@, p.1),
{
    let t = s.push(p);
    assert forall|i: int, j: int| 0 <= i < j < t.len() implies t[i].0@ != t[j].0@ by {
        if j == s.len() {
            assert(t[i] == s[i]);
        }
    }
    assert forall|k: Seq<char>| #[trigger] has_key(t, k) implies
        has_key(s, k) || k == p.0@ by {
        let i = choose|i: int| 0 <= i < t.len() && t[i].0@ == k;
        if i < s.len() {
            assert(s[i].0@ == k);
        }
    }
    assert(t[s.len() as int].0@ == p.0@);
    assert forall|k: Seq<char>| #[trigger] has_key(s, k) implies has_key(t, k) by {
        let i = index_of_key(s, k);
        assert(0 <= i < s.len() && s[i].0@ == k);
        assert(t[i] == s[i]);
        assert(t[i].0@ == k);
    }
    assert forall|k: Seq<char>| has_key(t, k) && k != p.0@ implies
        #[trigger] map_of(t)[k] == map_of(s)[k] by {
        let i = index_of_key(t, k);
        let j = index_of_key(s, k);
        assert(0 <= i < t.len() && t[i].0@ == k);
        assert(0 <= j < s.len() && s[j].0@ == k);
        assert(i < s.len());
        assert(t[i] == s[i]);
        if i != j {
            assert(s[i].0@ == s[j].0@);
        }
    }
    assert(map_of(t)[p.0@] == p.1) by {
        let i = index_of_key(t, p.0@);
        assert(has_key(t, p.0@));
        assert(0 <= i < t.len() && t[i].0@ == p.0@);
        if i < s.len() {
            assert(s[i].0@ == p.0@);
        }
    }
    assert(map_of(t) =~= map_of(s).insert(p.0@, p.1));
}

/// Taking out the entry at `i` removes exactly its key from the spelled-out
/// mapping, when keys are unique.
proof fn lemma_map_of_remove(s: Seq<(String, Value)>, i: int)
    requires
        unique_keys(s),
        0 <= i < s.len(),
    ensures
        unique_keys(s.remove(i)),
        !has_key(s.remove(i), s[i].0@),
        map_of(s.remove(i)) == map_of(s).remove(s[i].0@),
{
    let t = s.remove(i);
    let k0 = s[i].0@;
    assert forall|a: int, b: int| 0 <= a < b < t.len() implies t[a].0@ != t[b].0@ by {
        let a2: int = if a < i { a } else { a + 1 };
        let b2: int = if b < i { b } else { b + 1 };
        assert(t[a] == s[a2]);
        assert(t[b] == s[b2]);
    }
    assert forall|j: int| 0 <= j < t.len() implies t[j].0@ != k0 by {
        let j2: int = if j < i { j } else { j + 1 };
        assert(t[j] == s[j2]);
        if j2 != i {
            assert(s[j2].0@ != s[i].0@ || s[j2].0@ != k0);
        }
    }
    assert forall|k: Seq<char>| #[trigger] has_key(t, k) implies
        has_key(s, k) && k != k0 by {
        let j = choose|j: int| 0 <= j < t.len() && t[j].0@ == k;
        let j2: int = if j < i { j } else { j + 1 };
        assert(t[j] == s[j2]);
        assert(s[j2].0@ == k);
    }
    assert forall|k: Seq<char>| has_key(s, k) && k != k0 implies
        #[trigger] has_key(t, k) by {
        let j = index_of_key(s, k);
        assert(0 <= j < s.len() && s[j].0@ == k);
        let j2: int = if j < i { j } else { j - 1 };
        assert(t[j2] == s[j]);
    }
    assert forall|k: Seq<char>| has_key(t, k) implies
        #[trigger] map_of(t)[k] == map_of(s)[k] by {
        let a = index_of_key(t, k);
        let b = index_of_key(s, k);
        assert(0 <= a < t.len() && t[a].0@ == k);
        assert(0 <= b < s.len() && s[b].0@ == k);
        let a2: int = if a < i { a } else { a + 1 };
        assert(t[a] == s[a2]);
        if a2 != b {
            assert(s[a2].0@ == s[b].0@);
        }
    }
    assert(map_of(t) =~= map_of(s).remove(k0));
}

/// With unique keys the spelled-out mapping has exactly one key per entry.
proof fn lemma_map_of_len(s: Seq<(String, Value)>)
    requires
        unique_keys(s),
    ensures
        map_of(s).dom().finite(),
        map_of(s).dom().len() == s.len(),
    decreases s.len(),
{
    if s.len() == 0 {
        assert(map_of(s).dom() =~= Set::<Seq<char>>::empty());
    } else {
        let s0 = s.drop_last();
        let p = s.last();
        assert forall|i: int, j: int| 0 <= i < j < s0.len() implies s0[i].0@ != s0[j].0@ by {
            assert(s0[i] == s[i]);
            assert(s0[j] == s[j]);
        }
        assert(!has_key(s0, p.0@)) by {
            if has_key(s0, p.0@) {
                let i = choose|i: int| 0 <= i < s0.len() && s0[i].0@ == p.0@;
                assert(s[i].0@ == s[s.len() - 1].0@);
            }
        }
        lemma_map_of_len(s0);
        lemma_map_of_push(s0, p);
        assert(s0.push(p) =~= s);
        assert(map_of(s).dom() =~= map_of(s0).dom().insert(p.0@));
        assert(!map_of(s0).dom().contains(p.0@));
    }
}

/// The index of the entry of `entries` that holds `key`, if any.
fn find_index(entries: &Vec<(String, Value)>, key: &String) -> (r: Option<usize>)
    ensures
        match r {
            Some(i) => i < entries@.len() && entries@[i as int].0@ == key@,
            None => !has_key(entries@, key@),
        },
{
    let mut i: usize = 0;
    while i < entries.len()
        invariant
            i <= entries@.len(),
            forall|j: int| 0 <= j < i ==> entries@[j].0@ != key@,
        decreases entries@.len() - i,
    {
        if entries[i].0 == *key {
            return Some(i);
        }
        i = i + 1;
    }
    None
}

/// A mapping from server identifier to server specification, with unique
/// keys, as exchanged with an external tool's live configuration.
pub struct ServerMap {
    entries: Vec<(String, Value)>,
}

impl View for ServerMap {
    type V = Map<Seq<char>, Value>;

    closed spec fn view(&self) -> Map<Seq<char>, Value> {
        map_of(self.entries@)
    }
}

impl ServerMap {
    #[verifier::type_invariant]
    spec fn inv(&self) -> bool {
        unique_keys(self.entries@)
    }

    /// The empty mapping.
    pub fn new() -> (r: ServerMap)
        ensures
            r@ == Map::<Seq<char>, Value>::empty(),
    {
        let r = ServerMap { entries: Vec::new() };
        proof {
            assert(r@ =~= Map::<Seq<char>, Value>::empty());
        }
        r
    }

    /// Insert `server_spec` under `id`, overwriting any entry `id` held.
    pub fn insert(&mut self, id: &str, server_spec: Value)
        ensures
            final(self)@ == old(self)@.insert(id@, server_spec),
    {
        proof {
            use_type_invariant(&*self);
        }
        let key: String = id.to_owned();
        let mut entries: Vec<(String, Value)> = Vec::new();
        core::mem::swap(&mut entries, &mut self.entries);
        let ghost s0 = entries@;
        match find_index(&entries, &key) {
            Some(i) => {
                entries.remove(i);
                let ghost s1 = entries@;
                entries.push((key, server_spec));
                proof {
                    lemma_map_of_remove(s0, i as int);
                    assert(!has_key(s1, id@));
                    lemma_map_of_push(s1, (key, server_spec));
                    assert(map_of(s0).remove(id@).insert(id@, server_spec)
                        =~= map_of(s0).insert(id@, server_spec));
                }
            },
            None => {
                entries.push((key, server_spec));
                proof {
                    lemma_map_of_push(s0, (key, server_spec));
                }
            },
        }
        self.entries = entries;
    }

    /// Take the entry under `id` out; leave the mapping as it was when no
    /// entry holds `id`.
    pub fn remove(&mut self, id: &str)
        ensures
            final(self)@ == old(self)@.remove(id@),
    {
        proof {
            use_type_invariant(&*self);
        }
        let key: String = id.to_owned();
        let mut entries: Vec<(String, Value)> = Vec::new();
        core::mem::swap(&mut entries, &mut self.entries);
        let ghost s0 = entries@;
        match find_index(&entries, &key) {
            Some(i) => {
                entries.remove(i);
                proof {
                    lemma_map_of_remove(s0, i as int);
                }
            },
            None => {
                proof {
                    assert(!map_of(s0).dom().contains(id@));
                    assert(map_of(s0).remove(id@) =~= map_of(s0));
                }
            },
        }
        self.entries = entries;
    }

    /// The specification stored under `id`, if any.
    pub fn get(&self, id: &str) -> (r: Option<&Value>)
        ensures
            match r {
                Some(v) => self@.contains_key(id@) && *v == self@[id@],
                None => !self@.contains_key(id@),
            },
    {
        proof {
            use_type_invariant(&*self);
        }
        let key: String = id.to_owned();
        match find_index(&self.entries, &key) {
            Some(i) => {
                proof {
                    let j = index_of_key(self.entries@, id@);
                    assert(has_key(self.entries@, id@));
                    assert(0 <= j < self.entries@.len() && self.entries@[j].0@ == id@);
                    if j != i {
                        assert(self.entries@[j].0@ == self.entries@[i as int].0@);
                    }
                }
                Some(&self.entries[i].1)
            },
            None => None,
        }
    }

    /// Whether some entry holds `id`.
    pub fn contains_key(&self, id: &str) -> (r: bool)
        ensures
            r == self@.contains_key(id@),
    {
        match self.get(id) {
            Some(_) => true,
            None => false,
        }
    }

    /// How many entries the mapping holds.
    pub fn len(&self) -> (r: usize)
        ensures
            r == self@.dom().len(),
    {
        proof {
            use_type_invariant(&*self);
            lemma_map_of_len(self.entries@);
        }
        self.entries.len()
    }

    /// A copy of the mapping that spells out the same entries.
    pub fn duplicate(&self) -> (r: ServerMap)
        ensures
            r@ == self@,
    {
        proof {
            use_type_invariant(&*self);
        }
        let mut copied: Vec<(String, Value)> = Vec::new();
        let mut i: usize = 0;
        while i < self.entries.len()
            invariant
                i <= self.entries@.len(),
                copied@.len() == i as int,
                forall|j: int| 0 <= j < i ==> copied@[j] == self.entries@[j],
                unique_keys(self.entries@),
            decreases self.entries@.len() - i,
        {
            let pair = &self.entries[i];
            copied.push((pair.0.clone(), clone_value(&pair.1)));
            i = i + 1;
        }
        proof {
            assert(copied@ =~= self.entries@);
        }
        ServerMap { entries: copied }
    }

    /// The entries as identifier-specification pairs, each key once, each
    /// pair present in the mapping.
    pub fn entries(&self) -> (r: &Vec<(String, Value)>)
        ensures
            r@.len() == self@.dom().len(),
            unique_keys(r@),
            forall|i: int| 0 <= i < r@.len() ==>
                self@.contains_key(#[trigger] r@[i].0@) && self@[r@[i].0@] == r@[i].1,
    {
        proof {
            use_type_invariant(&*self);
            lemma_map_of_len(self.entries@);
            assert forall|i: int| 0 <= i < self.entries@.len() implies
                self@.contains_key(#[trigger] self.entries@[i].0@)
                    && self@[self.entries@[i].0@] == self.entries@[i].1 by {
                let k = self.entries@[i].0@;
                assert(has_key(self.entries@, k));
                let j = index_of_key(self.entries@, k);
                assert(0 <= j < self.entries@.len() && self.entries@[j].0@ == k);
                if j != i {
                    assert(self.entries@[j].0@ == self.entries@[i].0@);
                }
            }
        }
        &self.entries
    }
}

} // verus!
