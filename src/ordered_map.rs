//! A map keyed by strings that keeps its entries in insertion order.

use vstd::prelude::*;
use crate::text::text_eq;

verus! {

/// The index of the first entry of `entries`, at or after `i`, whose key is `key`.
pub open spec fn find_from<V>(entries: Seq<(String, V)>, key: Seq<char>, i: int) -> Option<int>
    decreases entries.len() - i,
{
    if i < 0 || i >= entries.len() {
        None
    } else if entries[i].0@ == key {
        Some(i)
    } else {
        find_from(entries, key, i + 1)
    }
}

/// In a map without repeated keys, the entry that holds a key is the one found.
pub proof fn lemma_find_unique<V>(entries: Seq<(String, V)>, key: Seq<char>, i: int, j: int)
    requires
        forall|a: int, b: int| 0 <= a < b < entries.len() ==> entries[a].0@ != entries[b].0@,
        0 <= j <= i < entries.len(),
        entries[i].0@ == key,
    ensures
        find_from(entries, key, j) == Some(i),
    decreases i - j,
{
    if j < i {
        lemma_find_unique(entries, key, i, j + 1);
    }
}

/// A key held by no entry is not found.
pub proof fn lemma_find_absent<V>(entries: Seq<(String, V)>, key: Seq<char>, j: int)
    requires
        forall|a: int| 0 <= a < entries.len() ==> entries[a].0@ != key,
        0 <= j,
    ensures
        find_from(entries, key, j) is None,
    decreases entries.len() - j,
{
    if j < entries.len() {
        lemma_find_absent(entries, key, j + 1);
    }
}

/// Where nothing is found, no entry from `j` on has the key.
pub proof fn lemma_find_none<V>(entries: Seq<(String, V)>, key: Seq<char>, j: int)
    requires
        find_from(entries, key, j) is None,
        0 <= j,
    ensures
        forall|a: int| j <= a < entries.len() ==> entries[a].0@ != key,
    decreases entries.len() - j,
{
    if j < entries.len() {
        lemma_find_none(entries, key, j + 1);
    }
}

/// What is found is an entry with that key.
pub proof fn lemma_find_found<V>(entries: Seq<(String, V)>, key: Seq<char>, j: int)
    requires
        find_from(entries, key, j) is Some,
    ensures
        j <= find_from(entries, key, j)->0 < entries.len(),
        entries[find_from(entries, key, j)->0].0@ == key,
    decreases entries.len() - j,
{
    if j >= 0 && j < entries.len() && entries[j].0@ != key {
        lemma_find_found(entries, key, j + 1);
    }
}

/// Entries keyed by string, in the order in which they were declared.
#[derive(Debug, PartialEq, Default)]
pub struct OrderedMap<V> {
    pub entries: Vec<(String, V)>,
}

impl<V> OrderedMap<V> {
    /// The keys, in order.
    pub open spec fn keys(&self) -> Seq<Seq<char>> {
        self.entries@.map_values(|e: (String, V)| e.0@)
    }

    /// No key occurs twice.
    pub open spec fn wf(&self) -> bool {
        forall|i: int, j: int|
            0 <= i < j < self.entries@.len() ==> self.entries@[i].0@ != self.entries@[j].0@
    }

    /// The value stored under `key`, if any.
    pub open spec fn lookup(&self, key: Seq<char>) -> Option<V> {
        match find_from(self.entries@, key, 0) {
            Some(i) => Some(self.entries@[i].1),
            None => None,
        }
    }

    pub fn new() -> (r: Self)
        ensures
            r.entries@.len() == 0,
            r.wf(),
    {
        OrderedMap { entries: Vec::new() }
    }

    pub fn len(&self) -> (r: usize)
        ensures
            r == self.entries@.len(),
    {
        self.entries.len()
    }

    /// The index of the entry stored under `key`.
    pub fn position(&self, key: &str) -> (r: Option<usize>)
        ensures
            r matches Some(i) ==> i < self.entries@.len() && find_from(self.entries@, key@, 0) == Some(
                i as int,
            ),
            r is None ==> find_from(self.entries@, key@, 0) is None,
    {
        let mut i: usize = 0;
        while i < self.entries.len()
            invariant
                i <= self.entries@.len(),
                find_from(self.entries@, key@, 0) == find_from(self.entries@, key@, i as int),
            decreases self.entries@.len() - i,
        {
            if text_eq(self.entries[i].0.as_str(), key) {
                return Some(i);
            }
            i = i + 1;
        }
        None
    }

    /// Stores `value` under `key`: in place of the entry that holds the key, or
    /// as a new last entry.
    pub fn insert(&mut self, key: String, value: V)
        requires
            old(self).wf(),
        ensures
            final(self).wf(),
            final(self).lookup(key@) == Some(value),
            forall|k: Seq<char>| k != key@ ==> final(self).lookup(k) == old(self).lookup(k),
            old(self).lookup(key@) is None ==> final(self).keys() == old(self).keys().push(key@),
            old(self).lookup(key@) is Some ==> final(self).keys() == old(self).keys(),
    {
        let ghost k = key@;
        match self.position(key.as_str()) {
            Some(i) => {
                proof {
                    lemma_find_found(self.entries@, k, 0);
                }
                self.entries.set(i, (key, value));
                proof {
                    let e = self.entries@;
                    let o = old(self).entries@;
                    assert(self.wf());
                    lemma_find_unique(e, k, i as int, 0);
                    assert forall|q: Seq<char>| q != k implies self.lookup(q) == old(self).lookup(q) by {
                        if find_from(o, q, 0) is Some {
                            lemma_find_found(o, q, 0);
                            lemma_find_unique(e, q, find_from(o, q, 0)->0, 0);
                        } else {
                            lemma_find_none(o, q, 0);
                            lemma_find_absent(e, q, 0);
                        }
                    }
                    assert(self.keys() =~= old(self).keys());
                }
            },
            None => {
                proof {
                    assert forall|a: int| 0 <= a < self.entries@.len() implies self.entries@[a].0@ != k by {
                        if self.entries@[a].0@ == k {
                            lemma_find_unique(self.entries@, k, a, 0);
                        }
                    }
                }
                self.entries.push((key, value));
                proof {
                    let e = self.entries@;
                    let o = old(self).entries@;
                    let n = o.len() as int;
                    assert(self.wf());
                    lemma_find_unique(e, k, n, 0);
                    assert forall|q: Seq<char>| q != k implies self.lookup(q) == old(self).lookup(q) by {
                        if find_from(o, q, 0) is Some {
                            lemma_find_found(o, q, 0);
                            lemma_find_unique(e, q, find_from(o, q, 0)->0, 0);
                        } else {
                            lemma_find_none(o, q, 0);
                            lemma_find_absent(e, q, 0);
                        }
                    }
                    assert(self.keys() =~= old(self).keys().push(k));
                }
            },
        }
    }

    /// The value stored under `key`.
    pub fn get(&self, key: &str) -> (r: Option<&V>)
        ensures
            r matches Some(v) ==> self.lookup(key@) == Some(*v),
            r is None ==> self.lookup(key@) is None,
    {
        match self.position(key) {
            Some(i) => Some(&self.entries[i].1),
            None => None,
        }
    }
}

} // verus!
