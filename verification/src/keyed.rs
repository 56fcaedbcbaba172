//! A map keyed by text, kept as a vector of distinct keys.
use vstd::prelude::*;

use crate::text::str_eq;

verus! {

/// The keys of `es` are pairwise distinct.
pub open spec fn distinct_keys<V>(es: Seq<(String, V)>) -> bool {
    forall|i: int, j: int| 0 <= i < j < es.len() ==> es[i].0@ != es[j].0@
}

/// Whether some entry of `es` has key `k`.
pub open spec fn has_key<V>(es: Seq<(String, V)>, k: Seq<char>) -> bool {
    exists|i: int| 0 <= i < es.len() && #[trigger] es[i].0@ == k
}

/// The map that `es` holds.
pub open spec fn map_of<V>(es: Seq<(String, V)>) -> Map<Seq<char>, V> {
    Map::new(
        |k: Seq<char>| has_key(es, k),
        |k: Seq<char>| es[choose|i: int| 0 <= i < es.len() && #[trigger] es[i].0@ == k].1,
    )
}

pub proof fn lemma_map_of_at<V>(es: Seq<(String, V)>, i: int)
    requires
        distinct_keys(es),
        0 <= i < es.len(),
    ensures
        map_of(es).contains_key(es[i].0@),
        map_of(es)[es[i].0@] == es[i].1,
{
    let k = es[i].0@;
    assert(has_key(es, k));
    let j = choose|j: int| 0 <= j < es.len() && #[trigger] es[j].0@ == k;
    if j != i {
        if j < i {
            assert(es[j].0@ != es[i].0@);
        } else {
            assert(es[i].0@ != es[j].0@);
        }
    }
}

/// Text-keyed map with distinct keys, in insertion order.
pub struct KeyedVec<V> {
    entries: Vec<(String, V)>,
}

impl<V> KeyedVec<V> {
    #[verifier::type_invariant]
    spec fn keys_distinct(self) -> bool {
        distinct_keys(self.entries@)
    }

    /// Number of entries.
    pub closed spec fn size(self) -> nat {
        self.entries@.len()
    }

    /// Key of the entry at position `i`.
    pub closed spec fn key_at(self, i: int) -> Seq<char> {
        self.entries@[i].0@
    }

    /// Value of the entry at position `i`.
    pub closed spec fn value_at(self, i: int) -> V {
        self.entries@[i].1
    }
}

impl<V> View for KeyedVec<V> {
    type V = Map<Seq<char>, V>;

    closed spec fn view(&self) -> Map<Seq<char>, V> {
        map_of(self.entries@)
    }
}

fn find<V>(es: &Vec<(String, V)>, key: &str) -> (r: Option<usize>)
    ensures
        match r {
            Some(i) => i < es@.len() && es@[i as int].0@ == key@,
            None => !has_key(es@, key@),
        },
{
    let mut i: usize = 0;
    while i < es.len()
        invariant
            0 <= i <= es@.len(),
            forall|j: int| 0 <= j < i ==> es@[j].0@ != key@,
        decreases es@.len() - i,
    {
        if str_eq(es[i].0.as_str(), key) {
            return Some(i);
        }
        i = i + 1;
    }
    None
}

impl<V> KeyedVec<V> {
    /// An empty map.
    pub fn new() -> (r: KeyedVec<V>)
        ensures
            r@ == Map::<Seq<char>, V>::empty(),
    {
        let r = KeyedVec { entries: Vec::new() };
        assert(r@ =~= Map::<Seq<char>, V>::empty());
        r
    }

    /// Number of entries; every key of the map stands at exactly one position.
    pub fn len(&self) -> (r: usize)
        ensures
            r == self.size(),
            forall|i: int|
                0 <= i < r ==> self@.contains_key(#[trigger] self.key_at(i)) && self@[self.key_at(i)]
                    == self.value_at(i),
            forall|k: Seq<char>|
                self@.contains_key(k) ==> exists|i: int| 0 <= i < r && #[trigger] self.key_at(i) == k,
            forall|i: int, j: int| 0 <= i < j < r ==> self.key_at(i) != self.key_at(j),
    {
        proof {
            use_type_invariant(self);
            assert forall|i: int|
                0 <= i < self.entries@.len() implies self@.contains_key(#[trigger] self.key_at(i))
                && self@[self.key_at(i)] == self.value_at(i) by {
                lemma_map_of_at(self.entries@, i);
            }
            assert forall|k: Seq<char>| self@.contains_key(k) implies exists|i: int|
                0 <= i < self.entries@.len() && #[trigger] self.key_at(i) == k by {
                let j = choose|j: int|
                    0 <= j < self.entries@.len() && #[trigger] self.entries@[j].0@ == k;
                assert(self.key_at(j) == k);
            }
        }
        self.entries.len()
    }

    /// The entry at position `i`.
    pub fn entry(&self, i: usize) -> (r: (&String, &V))
        requires
            i < self.size(),
        ensures
            r.0@ == self.key_at(i as int),
            *r.1 == self.value_at(i as int),
    {
        (&self.entries[i].0, &self.entries[i].1)
    }

    /// The value under `key`.
    pub fn get(&self, key: &str) -> (r: Option<&V>)
        ensures
            match r {
                Some(v) => self@.contains_key(key@) && self@[key@] == *v,
                None => !self@.contains_key(key@),
            },
    {
        proof {
            use_type_invariant(self);
        }
        match find(&self.entries, key) {
            Some(i) => {
                proof {
                    lemma_map_of_at(self.entries@, i as int);
                }
                Some(&self.entries[i].1)
            },
            None => None,
        }
    }

    /// Whether some entry has `key`.
    pub fn contains(&self, key: &str) -> (r: bool)
        ensures
            r == self@.contains_key(key@),
    {
        match self.get(key) {
            Some(_) => true,
            None => false,
        }
    }

    /// Put `value` under `key`, replacing what was there.
    pub fn insert(&mut self, key: String, value: V)
        ensures
            final(self)@ == old(self)@.insert(key@, value),
    {
        proof {
            use_type_invariant(&*self);
        }
        let ghost old_es = self.entries@;
        let mut es: Vec<(String, V)> = Vec::new();
        std::mem::swap(&mut es, &mut self.entries);
        assert(es@ == old_es);
        let ghost k = key@;
        match find(&es, key.as_str()) {
            Some(i) => {
                es.set(i, (key, value));
                proof {
                    assert(distinct_keys(es@)) by {
                        assert forall|a: int, b: int| 0 <= a < b < es@.len() implies es@[a].0@
                            != es@[b].0@ by {
                            if a != i && b != i {
                                assert(old_es[a].0@ != old_es[b].0@);
                            } else if a == i {
                                assert(old_es[a].0@ != old_es[b].0@);
                            } else {
                                assert(old_es[a].0@ != old_es[b].0@);
                            }
                        }
                    }
                    assert forall|q: Seq<char>| #![auto]
                        map_of(es@).contains_key(q) == map_of(old_es).insert(k, value).contains_key(
                            q,
                        ) by {
                        if has_key(es@, q) {
                            let j = choose|j: int| 0 <= j < es@.len() && #[trigger] es@[j].0@ == q;
                            if j != i {
                                assert(old_es[j].0@ == q);
                            }
                        }
                        if has_key(old_es, q) {
                            let j = choose|j: int| 0 <= j < old_es.len() && #[trigger] old_es[j].0@ == q;
                            assert(es@[j].0@ == q);
                        }
                    }
                    assert forall|q: Seq<char>| #[trigger]
                        map_of(es@).contains_key(q) implies map_of(es@)[q] == map_of(old_es).insert(
                        k,
                        value,
                    )[q] by {
                        let j = choose|j: int| 0 <= j < es@.len() && #[trigger] es@[j].0@ == q;
                        lemma_map_of_at(es@, j);
                        if j != i {
                            assert(old_es[j].0@ == q);
                            lemma_map_of_at(old_es, j);
                        }
                    }
                    assert(map_of(es@) =~= map_of(old_es).insert(k, value));
                }
            },
            None => {
                es.push((key, value));
                proof {
                    let n = old_es.len() as int;
                    assert(distinct_keys(es@)) by {
                        assert forall|a: int, b: int| 0 <= a < b < es@.len() implies es@[a].0@
                            != es@[b].0@ by {
                            if b == n {
                                assert(old_es[a].0@ != k) by {
                                    if old_es[a].0@ == k {
                                        assert(has_key(old_es, k));
                                    }
                                }
                            } else {
                                assert(old_es[a].0@ != old_es[b].0@);
                            }
                        }
                    }
                    assert forall|q: Seq<char>| #![auto]
                        map_of(es@).contains_key(q) == map_of(old_es).insert(k, value).contains_key(
                            q,
                        ) by {
                        if has_key(es@, q) {
                            let j = choose|j: int| 0 <= j < es@.len() && #[trigger] es@[j].0@ == q;
                            if j != n {
                                assert(old_es[j].0@ == q);
                            }
                        }
                        if has_key(old_es, q) {
                            let j = choose|j: int| 0 <= j < old_es.len() && #[trigger] old_es[j].0@ == q;
                            assert(es@[j].0@ == q);
                        }
                        if q == k {
                            assert(es@[n].0@ == q);
                        }
                    }
                    assert forall|q: Seq<char>| #[trigger]
                        map_of(es@).contains_key(q) implies map_of(es@)[q] == map_of(old_es).insert(
                        k,
                        value,
                    )[q] by {
                        let j = choose|j: int| 0 <= j < es@.len() && #[trigger] es@[j].0@ == q;
                        lemma_map_of_at(es@, j);
                        if j != n {
                            assert(old_es[j].0@ == q);
                            lemma_map_of_at(old_es, j);
                        }
                    }
                    assert(map_of(es@) =~= map_of(old_es).insert(k, value));
                }
            },
        }
        self.entries = es;
    }

    /// Take out the value under `key`, if any.
    pub fn remove(&mut self, key: &str) -> (r: Option<V>)
        ensures
            final(self)@ == old(self)@.remove(key@),
            match r {
                Some(v) => old(self)@.contains_key(key@) && old(self)@[key@] == v,
                None => !old(self)@.contains_key(key@),
            },
    {
        proof {
            use_type_invariant(&*self);
        }
        let ghost old_es = self.entries@;
        let mut es: Vec<(String, V)> = Vec::new();
        std::mem::swap(&mut es, &mut self.entries);
        assert(es@ == old_es);
        let ghost k = key@;
        match find(&es, key) {
            Some(i) => {
                let (_, v) = es.remove(i);
                proof {
                    lemma_map_of_at(old_es, i as int);
                    assert(es@ =~= old_es.remove(i as int));
                    assert(distinct_keys(es@)) by {
                        assert forall|a: int, b: int| 0 <= a < b < es@.len() implies es@[a].0@
                            != es@[b].0@ by {
                            let oa = if a < i { a } else { a + 1 };
                            let ob = if b < i { b } else { b + 1 };
                            assert(es@[a] == old_es[oa]);
                            assert(es@[b] == old_es[ob]);
                            assert(old_es[oa].0@ != old_es[ob].0@);
                        }
                    }
                    assert forall|q: Seq<char>| #![auto]
                        map_of(es@).contains_key(q) == map_of(old_es).remove(k).contains_key(q) by {
                        if has_key(es@, q) {
                            let j = choose|j: int| 0 <= j < es@.len() && #[trigger] es@[j].0@ == q;
                            let oj = if j < i { j } else { j + 1 };
                            assert(old_es[oj].0@ == q);
                            assert(q != k) by {
                                if j < i {
                                    assert(old_es[j].0@ != old_es[i as int].0@);
                                } else {
                                    assert(old_es[i as int].0@ != old_es[j + 1].0@);
                                }
                            }
                        }
                        if has_key(old_es, q) && q != k {
                            let j = choose|j: int| 0 <= j < old_es.len() && #[trigger] old_es[j].0@ == q;
                            assert(j != i);
                            let nj = if j < i { j } else { j - 1 };
                            assert(es@[nj].0@ == q);
                        }
                    }
                    assert forall|q: Seq<char>| #[trigger]
                        map_of(es@).contains_key(q) implies map_of(es@)[q] == map_of(old_es).remove(
                        k,
                    )[q] by {
                        let j = choose|j: int| 0 <= j < es@.len() && #[trigger] es@[j].0@ == q;
                        lemma_map_of_at(es@, j);
                        let oj = if j < i { j } else { j + 1 };
                        assert(old_es[oj].0@ == q);
                        lemma_map_of_at(old_es, oj);
                    }
                    assert(map_of(es@) =~= map_of(old_es).remove(k));
                }
                self.entries = es;
                Some(v)
            },
            None => {
                proof {
                    assert(map_of(es@) =~= map_of(old_es).remove(k));
                }
                self.entries = es;
                None
            },
        }
    }
}

} // verus!
