//! A small map that keeps its entries in a list, for keys that are compared by
//! what they say.

use vstd::prelude::*;

use crate::types::{AdapterId, Ssid};

verus! {

/// A key of an [`AssocMap`].
pub trait Key: View + Sized {
    /// Whether both keys say the same.
    fn same_key(&self, other: &Self) -> (r: bool)
        ensures
            r == (self@ == other@),
    ;
}

impl Key for Ssid {
    fn same_key(&self, other: &Ssid) -> (r: bool) {
        self.same_as(other)
    }
}

impl Key for AdapterId {
    fn same_key(&self, other: &AdapterId) -> (r: bool) {
        self.same_as(other)
    }
}

impl Key for String {
    fn same_key(&self, other: &String) -> (r: bool) {
        *self == *other
    }
}

/// An SSID on one adapter.
#[derive(Debug)]
pub struct ProfileKey {
    pub adapter: AdapterId,
    pub ssid: Ssid,
}

impl View for ProfileKey {
    type V = (Seq<char>, Seq<u8>);

    open spec fn view(&self) -> (Seq<char>, Seq<u8>) {
        (self.adapter@, self.ssid@)
    }
}

impl Key for ProfileKey {
    fn same_key(&self, other: &ProfileKey) -> (r: bool) {
        self.adapter.same_as(&other.adapter) && self.ssid.same_as(&other.ssid)
    }
}

/// A map from keys to values.
#[derive(Debug)]
#[verifier::reject_recursive_types(K)]
pub struct AssocMap<K: Key, T> {
    entries: Vec<(K, T)>,
}

/// Whether entry `i` is the one for `key`.
spec fn is_entry<K: Key, T>(entries: Seq<(K, T)>, key: K::V, i: int) -> bool {
    0 <= i < entries.len() && entries[i].0@ == key
}

spec fn distinct_keys<K: Key, T>(entries: Seq<(K, T)>) -> bool {
    forall|i: int, j: int|
        0 <= i < j < entries.len() ==> (#[trigger] entries[i]).0@ != (#[trigger] entries[j]).0@
}

spec fn entries_map<K: Key, T>(entries: Seq<(K, T)>) -> Map<K::V, T> {
    Map::new(
        |key: K::V| exists|i: int| #[trigger] is_entry(entries, key, i),
        |key: K::V| entries[choose|i: int| #[trigger] is_entry(entries, key, i)].1,
    )
}

impl<K: Key, T> View for AssocMap<K, T> {
    type V = Map<K::V, T>;

    closed spec fn view(&self) -> Map<K::V, T> {
        entries_map(self.entries@)
    }
}

proof fn lemma_entry<K: Key, T>(entries: Seq<(K, T)>, i: int)
    requires
        distinct_keys(entries),
        0 <= i < entries.len(),
    ensures
        entries_map(entries).contains_key(entries[i].0@),
        entries_map(entries)[entries[i].0@] == entries[i].1,
{
    assert(is_entry(entries, entries[i].0@, i));
}

impl<K: Key, T> AssocMap<K, T> {
    #[verifier::type_invariant]
    spec fn wf(self) -> bool {
        distinct_keys(self.entries@)
    }

    /// The empty map.
    pub fn new() -> (r: AssocMap<K, T>)
        ensures
            r@ == Map::<K::V, T>::empty(),
    {
        let r = AssocMap { entries: Vec::new() };
        assert(r@ =~= Map::<K::V, T>::empty()) by {
            assert forall|key: K::V| !r@.contains_key(key) by {
                assert(forall|i: int| !is_entry(r.entries@, key, i));
            }
        }
        r
    }

    fn position(&self, key: &K) -> (r: Option<usize>)
        ensures
            r is Some <==> self@.contains_key(key@),
            r matches Some(i) ==> is_entry(self.entries@, key@, i as int) && self@[key@]
                == self.entries@[i as int].1,
    {
        proof {
            use_type_invariant(self);
        }
        let mut i: usize = 0;
        while i < self.entries.len()
            invariant
                distinct_keys(self.entries@),
                i <= self.entries@.len(),
                forall|k: int| 0 <= k < i ==> !is_entry(self.entries@, key@, k),
            decreases self.entries@.len() - i,
        {
            if self.entries[i].0.same_key(key) {
                proof {
                    lemma_entry(self.entries@, i as int);
                }
                return Some(i);
            }
            i = i + 1;
        }
        None
    }

    /// The value for `key`, if there is one.
    pub fn get(&self, key: &K) -> (r: Option<&T>)
        ensures
            r is Some <==> self@.contains_key(key@),
            r matches Some(v) ==> *v == self@[key@],
    {
        match self.position(key) {
            Some(i) => Some(&self.entries[i].1),
            None => None,
        }
    }

    /// Whether there is a value for `key`.
    pub fn contains_key(&self, key: &K) -> (r: bool)
        ensures
            r == self@.contains_key(key@),
    {
        self.position(key).is_some()
    }

    /// Makes `value` the value for `key`.
    pub fn insert(&mut self, key: K, value: T)
        ensures
            final(self)@ == old(self)@.insert(key@, value),
    {
        let at = self.position(&key);
        proof {
            use_type_invariant(&*self);
        }
        let ghost was = self.entries@;
        let mut entries: Vec<(K, T)> = Vec::new();
        std::mem::swap(&mut entries, &mut self.entries);
        match at {
            Some(i) => {
                entries.set(i, (key, value));
            },
            None => {
                assert forall|i: int| 0 <= i < was.len() implies (#[trigger] was[i]).0@ != key@ by {
                    lemma_entry(was, i);
                }
                entries.push((key, value));
            },
        }
        proof {
            let now = entries@;
            let n = match at {
                Some(i) => i as int,
                None => was.len() as int,
            };
            assert(now[n] == (key, value));
            assert(forall|i: int| 0 <= i < was.len() && i != n ==> now[i] == was[i]);
            assert(distinct_keys(now));
            assert(entries_map(now) =~= entries_map(was).insert(key@, value)) by {
                assert forall|k: K::V| entries_map(now).contains_key(k) <==> entries_map(
                    was,
                ).insert(key@, value).contains_key(k) by {
                    if entries_map(now).contains_key(k) {
                        let i = choose|i: int| #[trigger] is_entry(now, k, i);
                        if i != n {
                            assert(is_entry(was, k, i));
                        }
                    }
                    if k == key@ {
                        assert(is_entry(now, k, n));
                    } else if entries_map(was).contains_key(k) {
                        let i = choose|i: int| #[trigger] is_entry(was, k, i);
                        assert(is_entry(now, k, i));
                    }
                }
                assert forall|k: K::V| entries_map(now).contains_key(k) implies entries_map(now)[k]
                    == entries_map(was).insert(key@, value)[k] by {
                    let i = choose|i: int| #[trigger] is_entry(now, k, i);
                    lemma_entry(now, i);
                    if i != n {
                        lemma_entry(was, i);
                    }
                }
            }
        }
        self.entries = entries;
    }

    /// Removes the value for `key` and hands it out.
    pub fn remove(&mut self, key: &K) -> (r: Option<T>)
        ensures
            final(self)@ == old(self)@.remove(key@),
            r is Some <==> old(self)@.contains_key(key@),
            r matches Some(v) ==> v == old(self)@[key@],
    {
        let at = self.position(key);
        proof {
            use_type_invariant(&*self);
        }
        let ghost was = self.entries@;
        match at {
            None => {
                assert(self@ =~= self@.remove(key@));
                None
            },
            Some(n) => {
                let mut entries: Vec<(K, T)> = Vec::new();
                std::mem::swap(&mut entries, &mut self.entries);
                let (_, value) = entries.remove(n);
                proof {
                    let now = entries@;
                    let at = n as int;
                    assert(forall|i: int| 0 <= i < at ==> now[i] == was[i]);
                    assert(forall|i: int| at <= i < now.len() ==> now[i] == was[i + 1]);
                    assert(distinct_keys(now));
                    assert(entries_map(now) =~= entries_map(was).remove(key@)) by {
                        assert forall|k: K::V| entries_map(now).contains_key(k) <==> entries_map(
                            was,
                        ).remove(key@).contains_key(k) by {
                            if entries_map(now).contains_key(k) {
                                let i = choose|i: int| #[trigger] is_entry(now, k, i);
                                let j = if i < at {
                                    i
                                } else {
                                    i + 1
                                };
                                assert(is_entry(was, k, j));
                                assert(was[j].0@ != was[at].0@);
                            }
                            if k != key@ && entries_map(was).contains_key(k) {
                                let j = choose|j: int| #[trigger] is_entry(was, k, j);
                                let i = if j < at {
                                    j
                                } else {
                                    j - 1
                                };
                                assert(is_entry(now, k, i));
                            }
                        }
                        assert forall|k: K::V| entries_map(now).contains_key(k) implies entries_map(
                            now,
                        )[k] == entries_map(was).remove(key@)[k] by {
                            let i = choose|i: int| #[trigger] is_entry(now, k, i);
                            lemma_entry(now, i);
                            if i < at {
                                lemma_entry(was, i);
                            } else {
                                lemma_entry(was, i + 1);
                            }
                        }
                    }
                }
                self.entries = entries;
                Some(value)
            },
        }
    }

    /// The number of entries. Each key of the map is listed once.
    pub fn len(&self) -> (r: usize)
        ensures
            r == self.keys().len(),
            forall|k: K::V| self@.contains_key(k) <==> #[trigger] self.keys().contains(k),
            self.keys().no_duplicates(),
    {
        proof {
            use_type_invariant(self);
            let keys = self.keys();
            assert forall|k: K::V| self@.contains_key(k) <==> #[trigger] keys.contains(k) by {
                if self@.contains_key(k) {
                    let i = choose|i: int| #[trigger] is_entry(self.entries@, k, i);
                    assert(keys[i] == k);
                }
                if keys.contains(k) {
                    let i = choose|i: int| 0 <= i < keys.len() && keys[i] == k;
                    assert(is_entry(self.entries@, k, i));
                }
            }
            assert forall|i: int, j: int|
                0 <= i < keys.len() && 0 <= j < keys.len() && i != j implies keys[i] != keys[j] by {
                assert(self.entries@[i].0@ != self.entries@[j].0@);
            }
        }
        self.entries.len()
    }

    /// The keys, in the order of the entries.
    pub closed spec fn keys(self) -> Seq<K::V> {
        self.entries@.map_values(|e: (K, T)| e.0@)
    }

    /// The entry at index `i`.
    pub fn entry(&self, i: usize) -> (r: (&K, &T))
        requires
            i < self.keys().len(),
        ensures
            r.0@ == self.keys()[i as int],
            self@.contains_key(r.0@),
            *r.1 == self@[r.0@],
    {
        proof {
            use_type_invariant(self);
            lemma_entry(self.entries@, i as int);
        }
        let e = &self.entries[i];
        (&e.0, &e.1)
    }
}

/// A profile's key is its adapter and its SSID, both of them.
pub proof fn profile_keys_are_faithful(key: ProfileKey)
    ensures
        key@.0 == key.adapter@,
        key@.1 == key.ssid@,
{
}

} // verus!
