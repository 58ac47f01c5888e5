//! An ordered association list of header fields. Insertion replaces the
//! value of an existing key in place, so iteration order is first-insertion
//! order and duplicate keys never accumulate.

use vstd::prelude::*;
use crate::text::str_eq;

verus! {

/// The position of the first entry with key `k` at or after `i`, or
/// `es.len()` when `k` does not occur.
pub open spec fn key_index_from(es: Seq<(Seq<char>, Seq<char>)>, k: Seq<char>, i: int) -> int
    decreases es.len() - i when 0 <= i <= es.len()
{
    if i >= es.len() {
        es.len() as int
    } else if es[i].0 == k {
        i
    } else {
        key_index_from(es, k, i + 1)
    }
}

pub open spec fn key_index(es: Seq<(Seq<char>, Seq<char>)>, k: Seq<char>) -> int {
    key_index_from(es, k, 0)
}

/// The value stored under `k`, if any.
pub open spec fn map_get(es: Seq<(Seq<char>, Seq<char>)>, k: Seq<char>) -> Option<Seq<char>> {
    if key_index(es, k) < es.len() {
        Some(es[key_index(es, k)].1)
    } else {
        None
    }
}

/// `es` with `v` stored under `k`: the first entry for `k` is replaced in
/// place, or a new entry is appended.
pub open spec fn map_insert(
    es: Seq<(Seq<char>, Seq<char>)>,
    k: Seq<char>,
    v: Seq<char>,
) -> Seq<(Seq<char>, Seq<char>)> {
    if key_index(es, k) < es.len() {
        es.update(key_index(es, k), (k, v))
    } else {
        es.push((k, v))
    }
}

pub proof fn lemma_key_index_from_bounds(es: Seq<(Seq<char>, Seq<char>)>, k: Seq<char>, i: int)
    requires
        0 <= i <= es.len(),
    ensures
        i <= key_index_from(es, k, i) <= es.len(),
        key_index_from(es, k, i) < es.len() ==> es[key_index_from(es, k, i)].0 == k,
        forall|j: int| i <= j < key_index_from(es, k, i) ==> es[j].0 != k,
    decreases es.len() - i,
{
    if i < es.len() && es[i].0 != k {
        lemma_key_index_from_bounds(es, k, i + 1);
    }
}

/// After an insert, looking the key up yields exactly the inserted value.
pub proof fn lemma_insert_get(es: Seq<(Seq<char>, Seq<char>)>, k: Seq<char>, v: Seq<char>)
    ensures
        map_get(map_insert(es, k, v), k) == Some(v),
{
    lemma_key_index_from_bounds(es, k, 0);
    let es2 = map_insert(es, k, v);
    let ki = key_index(es, k);
    if ki < es.len() {
        lemma_key_index_agree(es, es2, k, 0, ki);
    } else {
        lemma_key_index_agree(es, es2, k, 0, es.len() as int);
    }
}

/// Helper: when `es` and `es2` agree on keys below `stop` and `es2[stop]`
/// has key `k` while earlier entries do not, the search lands on `stop`.
proof fn lemma_key_index_agree(
    es: Seq<(Seq<char>, Seq<char>)>,
    es2: Seq<(Seq<char>, Seq<char>)>,
    k: Seq<char>,
    i: int,
    stop: int,
)
    requires
        0 <= i <= stop,
        stop < es2.len(),
        es2[stop].0 == k,
        forall|j: int| 0 <= j < stop ==> #[trigger] es2[j].0 == es[j].0,
        forall|j: int| i <= j < stop ==> es[j].0 != k,
    ensures
        key_index_from(es2, k, i) == stop,
    decreases stop - i,
{
    if i < stop {
        lemma_key_index_agree(es, es2, k, i + 1, stop);
    }
}

/// An ordered header-field map.
pub struct HeaderMap {
    pairs: Vec<(String, String)>,
}

impl HeaderMap {
    /// The entries, in iteration order, as character sequences.
    pub closed spec fn entries(self) -> Seq<(Seq<char>, Seq<char>)> {
        Seq::new(self.pairs@.len(), |i: int| (self.pairs@[i].0@, self.pairs@[i].1@))
    }

    pub fn new() -> (r: HeaderMap)
        ensures
            r.entries() =~= Seq::<(Seq<char>, Seq<char>)>::empty(),
    {
        HeaderMap { pairs: Vec::new() }
    }

    pub fn len(&self) -> (r: usize)
        ensures
            r == self.entries().len(),
    {
        self.pairs.len()
    }

    /// The entry at position `i`.
    pub fn at(&self, i: usize) -> (r: (&String, &String))
        requires
            i < self.entries().len(),
        ensures
            (r.0@, r.1@) == self.entries()[i as int],
    {
        (&self.pairs[i].0, &self.pairs[i].1)
    }

    /// The value stored under `key`, if any.
    pub fn get(&self, key: &str) -> (r: Option<&String>)
        ensures
            match r {
                Some(v) => map_get(self.entries(), key@) == Some(v@),
                None => map_get(self.entries(), key@) is None,
            },
    {
        let n = self.pairs.len();
        let mut i: usize = 0;
        while i < n
            invariant
                i <= n,
                n == self.entries().len(),
                key_index(self.entries(), key@)
                    == key_index_from(self.entries(), key@, i as int),
            decreases n - i,
        {
            if str_eq(self.pairs[i].0.as_str(), key) {
                return Some(&self.pairs[i].1);
            }
            i = i + 1;
        }
        None
    }

    /// Stores `value` under `key`, replacing the value of an existing entry
    /// in place.
    pub fn insert(&mut self, key: String, value: String)
        ensures
            final(self).entries() =~= map_insert(old(self).entries(), key@, value@),
    {
        let n = self.pairs.len();
        let mut i: usize = 0;
        while i < n
            invariant
                i <= n,
                n == self.entries().len(),
                *self == *old(self),
                key_index(self.entries(), key@)
                    == key_index_from(self.entries(), key@, i as int),
            decreases n - i,
        {
            if str_eq(self.pairs[i].0.as_str(), key.as_str()) {
                self.pairs.set(i, (key, value));
                return;
            }
            i = i + 1;
        }
        self.pairs.push((key, value));
    }
}

} // verus!
