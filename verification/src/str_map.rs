//! A map keyed by strings, held as a vector of entries with distinct keys.
//!
//! Its model is a `Map<Seq<char>, V::V>`: inserting a key that is present
//! replaces its value, as `HashMap::insert` does.
use vstd::prelude::*;

use crate::text::str_eq;

verus! {

/// The map that results from inserting `es` in order, a later entry for a
/// key replacing an earlier one.
pub open spec fn map_of<V>(es: Seq<(Seq<char>, V)>) -> Map<Seq<char>, V>
    decreases es.len(),
{
    if es.len() == 0 {
        Map::empty()
    } else {
        map_of(es.drop_last()).insert(es.last().0, es.last().1)
    }
}

/// No two entries of `es` share a key.
pub open spec fn distinct_keys<V>(es: Seq<(Seq<char>, V)>) -> bool {
    forall|i: int, j: int| 0 <= i < j < es.len() ==> es[i].0 != es[j].0
}

/// A key that no entry holds is absent from the map.
pub proof fn lemma_map_of_absent<V>(es: Seq<(Seq<char>, V)>, k: Seq<char>)
    requires
        forall|i: int| 0 <= i < es.len() ==> es[i].0 != k,
    ensures
        !map_of(es).contains_key(k),
    decreases es.len(),
{
    if es.len() > 0 {
        lemma_map_of_absent(es.drop_last(), k);
    }
}

/// The value of a key is that of the last entry holding it.
pub proof fn lemma_map_of_last<V>(es: Seq<(Seq<char>, V)>, k: Seq<char>, i: int)
    requires
        0 <= i < es.len(),
        es[i].0 == k,
        forall|j: int| i < j < es.len() ==> es[j].0 != k,
    ensures
        map_of(es).contains_key(k),
        map_of(es)[k] == es[i].1,
    decreases es.len(),
{
    if i < es.len() - 1 {
        lemma_map_of_last(es.drop_last(), k, i);
    }
}

/// Replacing the value of an entry with distinct keys updates the map at that key.
pub proof fn lemma_map_of_update<V>(es: Seq<(Seq<char>, V)>, i: int, v: V)
    requires
        0 <= i < es.len(),
        distinct_keys(es),
    ensures
        map_of(es.update(i, (es[i].0, v))) == map_of(es).insert(es[i].0, v),
    decreases es.len(),
{
    let k = es[i].0;
    let es2 = es.update(i, (k, v));
    if i == es.len() - 1 {
        assert(es2.drop_last() =~= es.drop_last());
        assert(map_of(es2) =~= map_of(es).insert(k, v));
    } else {
        let d = es.drop_last();
        assert(es2.drop_last() =~= d.update(i, (k, v)));
        assert(distinct_keys(d));
        lemma_map_of_update(d, i, v);
        assert(es.last().0 != k);
        assert(map_of(es2) =~= map_of(es).insert(k, v));
    }
}

/// A map from strings to values of type `V`.
pub struct StrMap<V: View> {
    entries: Vec<(String, V)>,
}

impl<V: View> StrMap<V> {
    /// The entries, each taken by its view.
    pub closed spec fn entries_view(&self) -> Seq<(Seq<char>, V::V)> {
        self.entries@.map_values(|e: (String, V)| (e.0@, e.1@))
    }

    #[verifier::type_invariant]
    closed spec fn keys_distinct(&self) -> bool {
        distinct_keys(self.entries_view())
    }

    /// An empty map.
    pub fn new() -> (m: Self)
        ensures
            m@ == Map::<Seq<char>, V::V>::empty(),
    {
        let m = StrMap { entries: Vec::new() };
        assert(m.entries_view() =~= Seq::empty());
        m
    }

    /// Index of the entry whose key is `key`, if any.
    fn position(&self, key: &str) -> (r: Option<usize>)
        ensures
            match r {
                Some(i) => i < self.entries_view().len() && self.entries_view()[i as int].0 == key@,
                None => forall|j: int|
                    0 <= j < self.entries_view().len() ==> self.entries_view()[j].0 != key@,
            },
    {
        let n = self.entries.len();
        let mut i: usize = 0;
        while i < n
            invariant
                n == self.entries@.len(),
                n == self.entries_view().len(),
                i <= n,
                forall|j: int| 0 <= j < i ==> self.entries_view()[j].0 != key@,
            decreases n - i,
        {
            if str_eq(self.entries[i].0.as_str(), key) {
                return Some(i);
            }
            i = i + 1;
        }
        None
    }

    /// The value held for `key`, if any.
    pub fn get(&self, key: &str) -> (r: Option<&V>)
        ensures
            match r {
                Some(v) => self@.contains_key(key@) && self@[key@] == v@,
                None => !self@.contains_key(key@),
            },
    {
        proof {
            use_type_invariant(self);
        }
        match self.position(key) {
            Some(i) => {
                proof {
                    lemma_map_of_last(self.entries_view(), key@, i as int);
                }
                Some(&self.entries[i].1)
            },
            None => {
                proof {
                    lemma_map_of_absent(self.entries_view(), key@);
                }
                None
            },
        }
    }

    /// Sets the value of `key` to `value`, replacing any value it held.
    pub fn insert(&mut self, key: String, value: V)
        ensures
            final(self)@ == old(self)@.insert(key@, value@),
    {
        proof {
            use_type_invariant(&*self);
        }
        let ghost old_es = self.entries_view();
        let pos = self.position(key.as_str());
        let mut entries: Vec<(String, V)> = Vec::new();
        std::mem::swap(&mut entries, &mut self.entries);
        assert(entries@.map_values(|e: (String, V)| (e.0@, e.1@)) == old_es);
        match pos {
            Some(i) => {
                proof {
                    lemma_map_of_update(old_es, i as int, value@);
                }
                entries[i] = (key, value);
                let ghost new_es = entries@.map_values(|e: (String, V)| (e.0@, e.1@));
                assert(new_es =~= old_es.update(i as int, (old_es[i as int].0, value@)));
                assert(distinct_keys(new_es));
            },
            None => {
                entries.push((key, value));
                let ghost new_es = entries@.map_values(|e: (String, V)| (e.0@, e.1@));
                assert(new_es =~= old_es.push((key@, value@)));
                assert(new_es.drop_last() =~= old_es);
                assert(distinct_keys(new_es));
            },
        }
        self.entries = entries;
    }

    /// Number of keys in the map.
    pub fn len(&self) -> (n: usize)
        ensures
            n == self@.len(),
    {
        proof {
            use_type_invariant(self);
            lemma_map_of_len(self.entries_view());
        }
        self.entries.len()
    }
}

/// With distinct keys, the map has one key per entry.
pub proof fn lemma_map_of_len<V>(es: Seq<(Seq<char>, V)>)
    requires
        distinct_keys(es),
    ensures
        map_of(es).dom().finite(),
        map_of(es).len() == es.len(),
    decreases es.len(),
{
    if es.len() > 0 {
        let d = es.drop_last();
        assert(distinct_keys(d));
        lemma_map_of_len(d);
        lemma_map_of_absent(d, es.last().0);
    }
}

impl<V: View> View for StrMap<V> {
    type V = Map<Seq<char>, V::V>;

    closed spec fn view(&self) -> Map<Seq<char>, V::V> {
        map_of(self.entries_view())
    }
}

} // verus!
