//! Action types by UUID.
use vstd::prelude::*;

use crate::keyed::KeyedVec;
use crate::protocol::events::Controller;
use crate::text::{
    ascii_lowercase, lemma_lex_asymmetric, lemma_lex_total,
    lemma_lex_transitive, lex_lt, str_lt, to_ascii_lowercase,
};

verus! {

/// Registration record of one action type. `F` builds instances of it.
pub struct ActionRegistration<F> {
    /// Action UUID.
    pub uuid: String,
    /// Expected controller for manifest checks.
    pub controller: Controller,
    /// Builds an instance from the plugin state.
    pub factory: F,
}

/// UUID → registration map. UUIDs are compared without regard to ASCII letter case.
pub struct Registry<F> {
    factories: KeyedVec<ActionRegistration<F>>,
}

impl<F> Registry<F> {
    /// Each registration stands under its own lower-cased UUID.
    #[verifier::type_invariant]
    spec fn keys_are_lowered(self) -> bool {
        forall|k: Seq<char>| #[trigger] self.factories@.contains_key(k) ==> ascii_lowercase(
            self.factories@[k].uuid@,
        ) == k
    }
}

impl<F> View for Registry<F> {
    /// Registrations under their lower-cased UUID.
    type V = Map<Seq<char>, ActionRegistration<F>>;

    closed spec fn view(&self) -> Map<Seq<char>, ActionRegistration<F>> {
        self.factories@
    }
}

/// `s` is sorted: no element is smaller than one before it.
pub open spec fn lex_sorted(s: Seq<Seq<char>>) -> bool {
    forall|i: int, j: int| 0 <= i < j < s.len() ==> !lex_lt(s[j], s[i])
}

/// The UUIDs of the registrations in `m`.
pub open spec fn registered_uuids<F>(m: Map<Seq<char>, ActionRegistration<F>>) -> Set<Seq<char>> {
    Set::new(|u: Seq<char>| exists|k: Seq<char>| m.contains_key(k) && #[trigger] m[k].uuid@ == u)
}

/// The UUID of the registration at position `a`.
pub open spec fn uuid_at<F>(m: KeyedVec<ActionRegistration<F>>, a: int) -> Seq<char> {
    m.value_at(a).uuid@
}

/// `u` is the UUID of one of the first `n` registrations.
pub open spec fn among_first<F>(m: KeyedVec<ActionRegistration<F>>, u: Seq<char>, n: int) -> bool {
    exists|a: int| 0 <= a < n && #[trigger] uuid_at(m, a) == u
}

/// `u` stands among the first `n` texts of `out`.
pub open spec fn listed(out: Seq<String>, u: Seq<char>, n: int) -> bool {
    exists|p: int| 0 <= p < n && #[trigger] out[p]@ == u
}

impl<F> Registry<F> {
    /// Create an empty registry.
    pub fn new() -> (r: Registry<F>)
        ensures
            r@ == Map::<Seq<char>, ActionRegistration<F>>::empty(),
    {
        Registry { factories: KeyedVec::new() }
    }

    /// Insert a registration record; one with the same UUID (in any letter case) is replaced.
    pub fn add(&mut self, registration: ActionRegistration<F>)
        ensures
            final(self)@ == old(self)@.insert(ascii_lowercase(registration.uuid@), registration),
    {
        proof {
            use_type_invariant(&*self);
        }
        let key = to_ascii_lowercase(registration.uuid.as_str());
        let mut factories = KeyedVec::new();
        std::mem::swap(&mut factories, &mut self.factories);
        factories.insert(key, registration);
        self.factories = factories;
    }

    /// Look up a registration by UUID (case-insensitive).
    pub fn get(&self, uuid: &str) -> (r: Option<&ActionRegistration<F>>)
        ensures
            match r {
                Some(reg) => self@.contains_key(ascii_lowercase(uuid@)) && self@[ascii_lowercase(
                    uuid@,
                )] == *reg,
                None => !self@.contains_key(ascii_lowercase(uuid@)),
            },
    {
        let key = to_ascii_lowercase(uuid);
        self.factories.get(key.as_str())
    }

    /// The registered UUIDs, sorted.
    pub fn uuids(&self) -> (r: Vec<String>)
        ensures
            r@.len() == self@.dom().len(),
            lex_sorted(r@.map_values(|s: String| s@)),
            forall|i: int| 0 <= i < r@.len() ==> registered_uuids(self@).contains(#[trigger] r@[i]@),
            forall|u: Seq<char>|
                registered_uuids(self@).contains(u) ==> exists|i: int|
                    0 <= i < r@.len() && #[trigger] r@[i]@ == u,
            forall|i: int, j: int|
                0 <= i < j < r@.len() ==> ascii_lowercase(#[trigger] r@[i]@) != ascii_lowercase(
                    #[trigger] r@[j]@,
                ),
    {
        proof {
            use_type_invariant(self);
        }
        let n = self.factories.len();
        proof {
            assert forall|a: int| 0 <= a < n implies ascii_lowercase(#[trigger] uuid_at(self.factories, a))
                == self.factories.key_at(a) by {
                assert(self.factories@.contains_key(self.factories.key_at(a)));
            }
        }
        let mut out: Vec<String> = Vec::new();
        let mut i: usize = 0;
        while i < n
            invariant
                n == self.factories.size(),
                forall|a: int|
                    0 <= a < n ==> self.factories@.contains_key(#[trigger] self.factories.key_at(a))
                        && self.factories@[self.factories.key_at(a)] == self.factories.value_at(a),
                forall|k: Seq<char>|
                    self.factories@.contains_key(k) ==> exists|a: int|
                        0 <= a < n && #[trigger] self.factories.key_at(a) == k,
                forall|a: int, b: int|
                    0 <= a < b < n ==> self.factories.key_at(a) != self.factories.key_at(b),
                0 <= i <= n,
                out@.len() == i,
                lex_sorted(out@.map_values(|s: String| s@)),
                forall|p: int| 0 <= p < i ==> among_first(self.factories, #[trigger] out@[p]@, i as int),
                forall|a: int| 0 <= a < i ==> listed(out@, #[trigger] uuid_at(self.factories, a), i as int),
                forall|a: int|
                    0 <= a < n ==> ascii_lowercase(#[trigger] uuid_at(self.factories, a))
                        == self.factories.key_at(a),
                forall|p: int, q: int|
                    0 <= p < q < i ==> ascii_lowercase(#[trigger] out@[p]@) != ascii_lowercase(
                        #[trigger] out@[q]@,
                    ),
            decreases n - i,
        {
            let (_, reg) = self.factories.entry(i);
            let u = reg.uuid.clone();
            let ghost before = out@;
            let ghost views = out@.map_values(|s: String| s@);
            let mut pos: usize = 0;
            while pos < out.len() && !str_lt(u.as_str(), out[pos].as_str())
                invariant
                    out@ == before,
                    views == out@.map_values(|s: String| s@),
                    0 <= pos <= out@.len(),
                    forall|q: int| 0 <= q < pos ==> !lex_lt(u@, #[trigger] views[q]),
                decreases out@.len() - pos,
            {
                pos = pos + 1;
            }
            proof {
                if pos < out@.len() {
                    assert(lex_lt(u@, views[pos as int]));
                }
            }
            out.insert(pos, u);
            proof {
                let nv = out@.map_values(|s: String| s@);
                assert(nv =~= views.insert(pos as int, u@));
                assert forall|a: int, b: int| 0 <= a < b < nv.len() implies !lex_lt(nv[b], nv[a]) by {
                    if a < pos && b < pos {
                        assert(nv[a] == views[a] && nv[b] == views[b]);
                    } else if a < pos && b == pos {
                        assert(!lex_lt(u@, views[a]));
                    } else if a < pos && b > pos {
                        assert(nv[a] == views[a] && nv[b] == views[b - 1]);
                        if b - 1 != a {
                            assert(!lex_lt(views[b - 1], views[a]));
                        }
                    } else if a == pos {
                        // b > pos: u < views[pos] <= views[b - 1]
                        assert(nv[b] == views[b - 1]);
                        assert(lex_lt(u@, views[pos as int]));
                        lemma_lex_total(views[pos as int], views[b - 1]);
                        if views[pos as int] != views[b - 1] {
                            if b - 1 > pos {
                                assert(!lex_lt(views[b - 1], views[pos as int]));
                            }
                            lemma_lex_transitive(u@, views[pos as int], views[b - 1]);
                        }
                        lemma_lex_asymmetric(u@, views[b - 1]);
                    } else {
                        assert(nv[a] == views[a - 1] && nv[b] == views[b - 1]);
                    }
                }
                assert forall|p: int| 0 <= p < i + 1 implies among_first(
                    self.factories,
                    #[trigger] out@[p]@,
                    i + 1,
                ) by {
                    if p < pos {
                        assert(out@[p] == before[p]);
                        assert(among_first(self.factories, before[p]@, i as int));
                        let a = choose|a: int|
                            0 <= a < i && #[trigger] uuid_at(self.factories, a) == before[p]@;
                        assert(uuid_at(self.factories, a) == out@[p]@);
                    } else if p == pos {
                        assert(uuid_at(self.factories, i as int) == out@[p]@);
                    } else {
                        assert(out@[p] == before[p - 1]);
                        assert(among_first(self.factories, before[p - 1]@, i as int));
                        let a = choose|a: int|
                            0 <= a < i && #[trigger] uuid_at(self.factories, a) == before[p - 1]@;
                        assert(uuid_at(self.factories, a) == out@[p]@);
                    }
                }
                assert forall|a: int| 0 <= a < i + 1 implies listed(
                    out@,
                    #[trigger] uuid_at(self.factories, a),
                    i + 1,
                ) by {
                    if a == i {
                        assert(out@[pos as int]@ == uuid_at(self.factories, a));
                    } else {
                        assert(listed(before, uuid_at(self.factories, a), i as int));
                        let p = choose|p: int|
                            0 <= p < i && #[trigger] before[p]@ == uuid_at(self.factories, a);
                        if p < pos {
                            assert(out@[p] == before[p]);
                        } else {
                            assert(out@[p + 1] == before[p]);
                        }
                    }
                }
                assert forall|p: int| 0 <= p < i implies ascii_lowercase(#[trigger] before[p]@)
                    != ascii_lowercase(u@) by {
                    assert(among_first(self.factories, before[p]@, i as int));
                    let a = choose|a: int| 0 <= a < i && #[trigger] uuid_at(self.factories, a) == before[p]@;
                    assert(ascii_lowercase(uuid_at(self.factories, a)) == self.factories.key_at(a));
                    assert(ascii_lowercase(uuid_at(self.factories, i as int)) == self.factories.key_at(
                        i as int,
                    ));
                }
                assert forall|p: int, q: int| 0 <= p < q < i + 1 implies ascii_lowercase(
                    #[trigger] out@[p]@,
                ) != ascii_lowercase(#[trigger] out@[q]@) by {
                    if q < pos {
                        assert(out@[p] == before[p] && out@[q] == before[q]);
                    } else if q == pos {
                        assert(out@[p] == before[p]);
                    } else if p < pos {
                        assert(out@[p] == before[p] && out@[q] == before[q - 1]);
                    } else if p == pos {
                        assert(out@[q] == before[q - 1]);
                    } else {
                        assert(out@[p] == before[p - 1] && out@[q] == before[q - 1]);
                    }
                }
            }
            i = i + 1;
        }
        proof {
            assert(self.factories@.dom() =~= Set::new(
                |k: Seq<char>| exists|a: int| 0 <= a < n && #[trigger] self.factories.key_at(a) == k,
            ));
            lemma_domain_size(self.factories, n as int);
            assert forall|p: int| 0 <= p < out@.len() implies registered_uuids(self@).contains(
                #[trigger] out@[p]@,
            ) by {
                assert(among_first(self.factories, out@[p]@, n as int));
                let a = choose|a: int| 0 <= a < n && #[trigger] uuid_at(self.factories, a) == out@[p]@;
                let k = self.factories.key_at(a);
                assert(self@.contains_key(k) && self@[k].uuid@ == out@[p]@);
            }
            assert forall|u: Seq<char>| registered_uuids(self@).contains(u) implies exists|p: int|
                0 <= p < out@.len() && #[trigger] out@[p]@ == u by {
                let k = choose|k: Seq<char>| self@.contains_key(k) && #[trigger] self@[k].uuid@ == u;
                let a = choose|a: int| 0 <= a < n && #[trigger] self.factories.key_at(a) == k;
                assert(uuid_at(self.factories, a) == u);
                assert(listed(out@, uuid_at(self.factories, a), n as int));
            }
        }
        out
    }
}

/// A map whose keys stand at `n` distinct positions has `n` keys.
proof fn lemma_domain_size<V>(m: KeyedVec<V>, n: int)
    requires
        n == m.size(),
        forall|a: int| 0 <= a < n ==> m@.contains_key(#[trigger] m.key_at(a)),
        forall|k: Seq<char>| m@.contains_key(k) ==> exists|a: int| 0 <= a < n && #[trigger] m.key_at(a) == k,
        forall|a: int, b: int| 0 <= a < b < n ==> m.key_at(a) != m.key_at(b),
    ensures
        m@.dom().len() == n,
{
    let keys = Seq::new(n as nat, |a: int| m.key_at(a));
    assert(keys.no_duplicates()) by {
        assert forall|a: int, b: int| 0 <= a < keys.len() && 0 <= b < keys.len() && a != b implies keys[a]
            != keys[b] by {
            if a < b {
                assert(m.key_at(a) != m.key_at(b));
            } else {
                assert(m.key_at(b) != m.key_at(a));
            }
        }
    }
    assert(keys.to_set() =~= m@.dom()) by {
        assert forall|k: Seq<char>| keys.to_set().contains(k) implies m@.dom().contains(k) by {
            let a = choose|a: int| 0 <= a < keys.len() && keys[a] == k;
            assert(m@.contains_key(m.key_at(a)));
        }
        assert forall|k: Seq<char>| m@.dom().contains(k) implies keys.to_set().contains(k) by {
            let a = choose|a: int| 0 <= a < n && #[trigger] m.key_at(a) == k;
            assert(keys[a] == k);
        }
    }
    keys.unique_seq_to_set();
}

} // verus!
