//! A small string-keyed cache that remembers lookups for the rest of the
//! session.

use vstd::prelude::*;
use crate::text::str_eq;

verus! {

/// Values that can hand out an identical copy of themselves.
pub trait Duplicate: Sized {
    fn duplicate(&self) -> (copy: Self)
        ensures
            copy == *self,
    ;
}

impl Duplicate for String {
    fn duplicate(&self) -> (copy: Self) {
        self.clone()
    }
}

/// Cached values, one per key; keys compare by their text.
pub struct KeyedCache<V> {
    entries: Vec<(String, V)>,
}

/// No two entries share a key.
pub open spec fn keys_unique<V>(s: Seq<(String, V)>) -> bool {
    forall|i: int, j: int| 0 <= i < s.len() && 0 <= j < s.len() && i != j ==> s[i].0@ != s[j].0@
}

/// The map that a list of entries stands for.
pub open spec fn entries_map<V>(s: Seq<(String, V)>) -> Map<Seq<char>, V>
    decreases s.len(),
{
    if s.len() == 0 {
        Map::empty()
    } else {
        entries_map(s.drop_last()).insert(s.last().0@, s.last().1)
    }
}

proof fn lemma_entry_lookup<V>(s: Seq<(String, V)>, k: Seq<char>)
    requires
        keys_unique(s),
    ensures
        entries_map(s).contains_key(k) <==> exists|i: int| 0 <= i < s.len() && s[i].0@ == k,
        forall|i: int| 0 <= i < s.len() && s[i].0@ == k ==> entries_map(s)[k] == s[i].1,
    decreases s.len(),
{
    if s.len() > 0 {
        let p = s.drop_last();
        let n: int = s.len() - 1;
        assert forall|a: int, b: int|
            0 <= a < p.len() && 0 <= b < p.len() && a != b implies p[a].0@ != p[b].0@ by {
            assert(p[a] == s[a]);
            assert(p[b] == s[b]);
        }
        lemma_entry_lookup(p, k);
        if s[n].0@ == k {
            assert forall|i: int| 0 <= i < s.len() && s[i].0@ == k implies entries_map(s)[k]
                == s[i].1 by {
                if i != n {
                    assert(s[i].0@ != s[n].0@);
                }
            }
        } else {
            if entries_map(p).contains_key(k) {
                let i = choose|i: int| 0 <= i < p.len() && p[i].0@ == k;
                assert(p[i] == s[i]);
            }
            if exists|i: int| 0 <= i < s.len() && s[i].0@ == k {
                let i = choose|i: int| 0 <= i < s.len() && s[i].0@ == k;
                assert(p[i] == s[i]);
            }
            assert forall|i: int| 0 <= i < s.len() && s[i].0@ == k implies entries_map(s)[k]
                == s[i].1 by {
                assert(p[i] == s[i]);
            }
        }
    }
}

impl<V> View for KeyedCache<V> {
    type V = Map<Seq<char>, V>;

    closed spec fn view(&self) -> Map<Seq<char>, V> {
        entries_map(self.entries@)
    }
}

impl<V: Duplicate> KeyedCache<V> {
    /// Well-formed: no two entries share a key.
    pub closed spec fn wf(&self) -> bool {
        keys_unique(self.entries@)
    }

    /// An empty cache.
    pub fn new() -> (cache: Self)
        ensures
            cache.wf(),
            cache@ == Map::<Seq<char>, V>::empty(),
    {
        KeyedCache { entries: Vec::new() }
    }

    /// The value cached under `key`, if any.
    pub fn get(&self, key: &str) -> (found: Option<V>)
        requires
            self.wf(),
        ensures
            found == (if self@.contains_key(key@) {
                Some(self@[key@])
            } else {
                None
            }),
    {
        proof {
            lemma_entry_lookup(self.entries@, key@);
        }
        let mut i: usize = 0;
        while i < self.entries.len()
            invariant
                i <= self.entries@.len(),
                keys_unique(self.entries@),
                forall|j: int| 0 <= j < i ==> self.entries@[j].0@ != key@,
            decreases self.entries@.len() - i,
        {
            if str_eq(self.entries[i].0.as_str(), key) {
                proof {
                    lemma_entry_lookup(self.entries@, key@);
                }
                return Some(self.entries[i].1.duplicate());
            }
            i = i + 1;
        }
        None
    }

    /// Caches `value` under `key`, replacing what was cached there before.
    pub fn set(&mut self, key: &str, value: V)
        requires
            old(self).wf(),
        ensures
            final(self).wf(),
            final(self)@ == old(self)@.insert(key@, value),
    {
        proof {
            lemma_entry_lookup(self.entries@, key@);
        }
        let mut i: usize = 0;
        while i < self.entries.len()
            invariant
                i <= self.entries@.len(),
                self.entries@ == old(self).entries@,
                keys_unique(self.entries@),
                forall|j: int| 0 <= j < i ==> self.entries@[j].0@ != key@,
            decreases self.entries@.len() - i,
        {
            if str_eq(self.entries[i].0.as_str(), key) {
                let ghost before = self.entries@;
                assert(before[i as int].0@ == key@);
                self.entries.set(i, (String::from_str(key), value));
                proof {
                    let after = self.entries@;
                    assert forall|a: int, b: int|
                        0 <= a < after.len() && 0 <= b < after.len() && a != b implies after[a].0@
                        != after[b].0@ by {
                        if a != i {
                            assert(after[a] == before[a]);
                        }
                        if b != i {
                            assert(after[b] == before[b]);
                        }
                    }
                    assert forall|k: Seq<char>|
                        #![trigger entries_map(after).contains_key(k)]
                        #![trigger entries_map(before).contains_key(k)]
                        entries_map(after).contains_key(k) == entries_map(before).insert(
                            key@,
                            value,
                        ).contains_key(k) && (entries_map(after).contains_key(k)
                            ==> entries_map(after)[k] == entries_map(before).insert(
                            key@,
                            value,
                        )[k]) by {
                        lemma_entry_lookup(before, k);
                        lemma_entry_lookup(after, k);
                        assert(after[i as int].0@ == key@);
                        if k != key@ {
                            if entries_map(before).contains_key(k) {
                                let j = choose|j: int| 0 <= j < before.len() && before[j].0@ == k;
                                assert(after[j] == before[j]);
                            }
                            if entries_map(after).contains_key(k) {
                                let j = choose|j: int| 0 <= j < after.len() && after[j].0@ == k;
                                assert(after[j] == before[j]);
                            }
                        }
                    }
                    assert(entries_map(after) =~= entries_map(before).insert(key@, value));
                }
                return;
            }
            i = i + 1;
        }
        let ghost before = self.entries@;
        self.entries.push((String::from_str(key), value));
        proof {
            let after = self.entries@;
            assert(after.drop_last() =~= before);
            assert(!entries_map(before).contains_key(key@));
            assert(after.last() == (self.entries@.last()));
            assert(keys_unique(after)) by {
                assert forall|a: int, b: int|
                    0 <= a < after.len() && 0 <= b < after.len() && a != b implies after[a].0@
                    != after[b].0@ by {
                    if a < before.len() {
                        assert(after[a] == before[a]);
                    }
                    if b < before.len() {
                        assert(after[b] == before[b]);
                    }
                }
            }
        }
    }
}

/// What a cache gives back for a key is what was last cached under it, and
/// caching under one key leaves every other key as it was.
pub proof fn lemma_cache_read_after_write<V>(
    before: Map<Seq<char>, V>,
    key: Seq<char>,
    value: V,
    other: Seq<char>,
)
    requires
        other != key,
    ensures
        before.insert(key, value).contains_key(key),
        before.insert(key, value)[key] == value,
        before.insert(key, value).contains_key(other) == before.contains_key(other),
        before.insert(key, value)[other] == before[other],
{
}

} // verus!
