//! The comparison of registered action UUIDs with the ones the plugin manifest declares.
use vstd::prelude::*;

use crate::decode::{de_text, read_text, record_field, record_field_exec, record_shape, record_shape_exec};
use crate::json::{lemma_models_of, models_of, opt_model, Json, JsonValue};
use crate::plugin::registry::{lex_sorted, registered_uuids, Registry};
use crate::text::{ascii_lowercase, str_eq, to_ascii_lowercase};

verus! {

/// The action UUID an entry of `Actions` declares (its `UUID`, empty when absent).
pub open spec fn manifest_action_of(v: Json) -> Option<Seq<char>> {
    if !record_shape(v, 1) {
        None
    } else {
        de_text(record_field(v, "UUID"@, 0))
    }
}

/// The UUIDs a manifest document declares, in order, or `None` when the document
/// is not a manifest (its `Actions` must be a list of actions; absent reads as none).
pub open spec fn manifest_uuids_of(v: Json) -> Option<Seq<Seq<char>>> {
    if !record_shape(v, 1) {
        None
    } else {
        match record_field(v, "Actions"@, 0) {
            None => Some(Seq::empty()),
            Some(Json::Array(items)) => if forall|i: int|
                0 <= i < items.len() ==> #[trigger] manifest_action_of(items[i]) is Some {
                Some(Seq::new(items.len(), |i: int| manifest_action_of(items[i])->0))
            } else {
                None
            },
            Some(_) => None,
        }
    }
}

/// Lower-cased texts, the empty ones left out.
pub open spec fn lowered_nonempty(xs: Seq<Seq<char>>) -> Seq<Seq<char>>
    decreases xs.len(),
{
    if xs.len() == 0 {
        Seq::empty()
    } else {
        lowered_nonempty(xs.drop_last()) + if xs.last().len() == 0 {
            Seq::empty()
        } else {
            seq![ascii_lowercase(xs.last())]
        }
    }
}

/// Lower-cased texts, all of them.
pub open spec fn lowered(xs: Seq<Seq<char>>) -> Seq<Seq<char>> {
    xs.map_values(|x: Seq<char>| ascii_lowercase(x))
}

/// The elements of `xs` that `ys` does not hold, in order.
pub open spec fn absent_from(xs: Seq<Seq<char>>, ys: Seq<Seq<char>>) -> Seq<Seq<char>>
    decreases xs.len(),
{
    if xs.len() == 0 {
        Seq::empty()
    } else {
        absent_from(xs.drop_last(), ys) + if ys.contains(xs.last()) {
            Seq::empty()
        } else {
            seq![xs.last()]
        }
    }
}

pub open spec fn views(xs: Seq<String>) -> Seq<Seq<char>> {
    xs.map_values(|s: String| s@)
}

/// UUIDs declared in the manifest but not registered, and registered but not declared.
pub struct UuidMismatch {
    /// Declared in the plugin manifest, not registered.
    pub missing: Vec<String>,
    /// Registered, not declared in the plugin manifest.
    pub extra: Vec<String>,
}

impl UuidMismatch {
    /// Whether the two lists agree.
    pub fn is_empty(&self) -> (r: bool)
        ensures
            r == (self.missing@.len() == 0 && self.extra@.len() == 0),
    {
        self.missing.len() == 0 && self.extra.len() == 0
    }
}

/// The UUIDs a manifest document declares.
pub fn manifest_uuids(manifest: &JsonValue) -> (r: Option<Vec<String>>)
    ensures
        match r {
            Some(us) => manifest_uuids_of(manifest@) == Some(views(us@)),
            None => manifest_uuids_of(manifest@) is None,
        },
{
    if !record_shape_exec(manifest, 1) {
        return None;
    }
    let actions = record_field_exec(manifest, "Actions", 0);
    match actions {
        None => {
            let out: Vec<String> = Vec::new();
            assert(views(out@) =~= Seq::<Seq<char>>::empty());
            Some(out)
        },
        Some(JsonValue::Array(items)) => {
            proof {
                lemma_models_of(items@);
            }
            let ghost ms = models_of(items@);
            assert(opt_model(actions) == Some(Json::Array(ms)));
            let mut out: Vec<String> = Vec::new();
            let mut i: usize = 0;
            while i < items.len()
                invariant
                    0 <= i <= items@.len(),
                    ms == models_of(items@),
                    ms.len() == items@.len(),
                    opt_model(actions) == Some(Json::Array(ms)),
                    opt_model(actions) == record_field(manifest@, "Actions"@, 0),
                    record_shape(manifest@, 1),
                    forall|j: int| 0 <= j < items@.len() ==> #[trigger] ms[j] == items@[j]@,
                    out@.len() == i,
                    forall|j: int| 0 <= j < i ==> manifest_action_of(#[trigger] ms[j]) == Some(out@[j]@),
                decreases items@.len() - i,
            {
                let item = &items[i];
                if !record_shape_exec(item, 1) {
                    assert(manifest_action_of(ms[i as int]) is None);
                    assert(!(forall|j: int|
                        0 <= j < ms.len() ==> #[trigger] manifest_action_of(ms[j]) is Some));
                    return None;
                }
                match read_text(record_field_exec(item, "UUID", 0)) {
                    Some(u) => {
                        out.push(u);
                    },
                    None => {
                        assert(manifest_action_of(ms[i as int]) is None);
                        assert(!(forall|j: int|
                            0 <= j < ms.len() ==> #[trigger] manifest_action_of(ms[j]) is Some));
                        return None;
                    },
                }
                i = i + 1;
            }
            assert(forall|j: int| 0 <= j < ms.len() ==> #[trigger] manifest_action_of(ms[j]) is Some);
            assert(views(out@) =~= Seq::new(ms.len(), |j: int| manifest_action_of(ms[j])->0));
            Some(out)
        },
        Some(_) => None,
    }
}

fn lower_nonempty(xs: &Vec<String>) -> (r: Vec<String>)
    ensures
        views(r@) == lowered_nonempty(views(xs@)),
{
    let mut out: Vec<String> = Vec::new();
    let mut i: usize = 0;
    while i < xs.len()
        invariant
            0 <= i <= xs@.len(),
            views(out@) == lowered_nonempty(views(xs@).take(i as int)),
        decreases xs@.len() - i,
    {
        let ghost before = views(out@);
        assert(views(xs@).take(i + 1).drop_last() =~= views(xs@).take(i as int));
        assert(views(xs@).take(i + 1).last() == xs@[i as int]@);
        if !xs[i].as_str().is_empty() {
            let lower = to_ascii_lowercase(xs[i].as_str());
            out.push(lower);
            assert(views(out@) =~= before + seq![ascii_lowercase(xs@[i as int]@)]);
        } else {
            assert(xs@[i as int]@.len() == 0);
            assert(before + Seq::<Seq<char>>::empty() =~= before);
        }
        i = i + 1;
    }
    assert(views(xs@).take(xs@.len() as int) =~= views(xs@));
    out
}

fn lower_all(xs: &Vec<String>) -> (r: Vec<String>)
    ensures
        views(r@) == lowered(views(xs@)),
{
    let mut out: Vec<String> = Vec::new();
    let mut i: usize = 0;
    while i < xs.len()
        invariant
            0 <= i <= xs@.len(),
            views(out@) == lowered(views(xs@).take(i as int)),
        decreases xs@.len() - i,
    {
        let ghost before = views(out@);
        let lower = to_ascii_lowercase(xs[i].as_str());
        out.push(lower);
        assert(views(out@) =~= before.push(ascii_lowercase(xs@[i as int]@)));
        assert(views(xs@).take(i + 1) =~= views(xs@).take(i as int).push(xs@[i as int]@));
        assert(lowered(views(xs@).take(i + 1)) =~= lowered(views(xs@).take(i as int)).push(
            ascii_lowercase(xs@[i as int]@),
        ));
        i = i + 1;
    }
    assert(views(xs@).take(xs@.len() as int) =~= views(xs@));
    out
}

fn contains_text(ys: &Vec<String>, x: &str) -> (r: bool)
    ensures
        r == views(ys@).contains(x@),
{
    let mut i: usize = 0;
    while i < ys.len()
        invariant
            0 <= i <= ys@.len(),
            forall|j: int| 0 <= j < i ==> ys@[j]@ != x@,
        decreases ys@.len() - i,
    {
        if str_eq(ys[i].as_str(), x) {
            assert(views(ys@)[i as int] == x@);
            return true;
        }
        i = i + 1;
    }
    assert(!views(ys@).contains(x@)) by {
        if views(ys@).contains(x@) {
            let j = choose|j: int| 0 <= j < views(ys@).len() && views(ys@)[j] == x@;
            assert(ys@[j]@ == x@);
        }
    }
    false
}

/// The elements of `xs` that `ys` does not hold, in order.
pub fn not_in(xs: &Vec<String>, ys: &Vec<String>) -> (r: Vec<String>)
    ensures
        views(r@) == absent_from(views(xs@), views(ys@)),
{
    let mut out: Vec<String> = Vec::new();
    let mut i: usize = 0;
    while i < xs.len()
        invariant
            0 <= i <= xs@.len(),
            views(out@) == absent_from(views(xs@).take(i as int), views(ys@)),
        decreases xs@.len() - i,
    {
        let ghost before = views(out@);
        assert(views(xs@).take(i + 1).drop_last() =~= views(xs@).take(i as int));
        assert(views(xs@).take(i + 1).last() == xs@[i as int]@);
        if !contains_text(ys, xs[i].as_str()) {
            out.push(xs[i].clone());
            assert(views(out@) =~= before + seq![xs@[i as int]@]);
        } else {
            assert(before + Seq::<Seq<char>>::empty() =~= before);
        }
        i = i + 1;
    }
    assert(views(xs@).take(xs@.len() as int) =~= views(xs@));
    out
}

/// Compare the registered UUIDs with the ones a manifest document declares,
/// ignoring ASCII letter case; empty declared UUIDs are left out, registered
/// ones are all compared. `None` when
/// the document is not a manifest.
pub fn check_uuids<F>(registry: &Registry<F>, manifest: &JsonValue) -> (r: Option<UuidMismatch>)
    ensures
        match r {
            None => manifest_uuids_of(manifest@) is None,
            Some(m) => exists|registered: Seq<Seq<char>>| {
                &&& registered.len() == registry@.dom().len()
                &&& lex_sorted(registered)
                &&& (forall|i: int|
                    0 <= i < registered.len() ==> registered_uuids(registry@).contains(
                        #[trigger] registered[i],
                    ))
                &&& (forall|u: Seq<char>|
                    registered_uuids(registry@).contains(u) ==> registered.contains(u))
                &&& manifest_uuids_of(manifest@) matches Some(declared) && views(m.missing@)
                    == absent_from(lowered_nonempty(declared), lowered(registered))
                    && views(m.extra@) == absent_from(lowered(registered), lowered_nonempty(declared))
            },
        },
{
    let declared_raw = match manifest_uuids(manifest) {
        Some(d) => d,
        None => {
            return None;
        },
    };
    let registered_raw = registry.uuids();
    let registered = lower_all(&registered_raw);
    let declared = lower_nonempty(&declared_raw);
    let missing = not_in(&declared, &registered);
    let extra = not_in(&registered, &declared);
    proof {
        let reg = views(registered_raw@);
        assert forall|i: int| 0 <= i < reg.len() implies registered_uuids(registry@).contains(
            #[trigger] reg[i],
        ) by {
            assert(reg[i] == registered_raw@[i]@);
        }
        assert forall|u: Seq<char>| registered_uuids(registry@).contains(u) implies reg.contains(u) by {
            let p = choose|p: int| 0 <= p < registered_raw@.len() && #[trigger] registered_raw@[p]@ == u;
            assert(reg[p] == u);
        }
    }
    Some(UuidMismatch { missing, extra })
}

} // verus!
