//! The JSON documents that travel over the plugin socket, held as plain values.
//!
//! `JsonValue` is what the library holds at run time; `Json` is its mathematical
//! model (strings as `Seq<char>`, arrays and objects as sequences). The accessors
//! (`get`, `as_str`, `as_i64`, `as_bool`, `as_object`, `as_array`) are stated
//! exactly over the model.
use vstd::prelude::*;

use crate::text::str_eq;

verus! {

/// A number as JSON carries it.
#[derive(Clone, Copy, PartialEq, Eq, Structural)]
pub enum JsonNumber {
    /// A non-negative integer.
    PosInt(u64),
    /// A negative integer.
    NegInt(i64),
    /// A float, held by its IEEE-754 bit pattern.
    Float(u64),
}

/// A JSON document. An object keeps its members in the order they came.
pub enum JsonValue {
    Null,
    Bool(bool),
    Number(JsonNumber),
    String(String),
    Array(Vec<JsonValue>),
    Object(Vec<(String, JsonValue)>),
}

/// The model of a JSON document.
pub enum Json {
    Null,
    Bool(bool),
    Number(JsonNumber),
    Str(Seq<char>),
    Array(Seq<Json>),
    Object(Seq<(Seq<char>, Json)>),
}

pub open spec fn model_of(v: JsonValue) -> Json
    decreases v, 0int,
{
    match v {
        JsonValue::Null => Json::Null,
        JsonValue::Bool(b) => Json::Bool(b),
        JsonValue::Number(n) => Json::Number(n),
        JsonValue::String(s) => Json::Str(s@),
        JsonValue::Array(items) => {
            proof {
                assert(decreases_to!(v => items));
                assert(decreases_to!(items => items@));
            }
            Json::Array(models_of(items@))
        },
        JsonValue::Object(entries) => {
            proof {
                assert(decreases_to!(v => entries));
                assert(decreases_to!(entries => entries@));
            }
            Json::Object(member_models(entries@))
        },
    }
}

pub open spec fn models_of(items: Seq<JsonValue>) -> Seq<Json>
    decreases items, 1int,
{
    if items.len() == 0 {
        Seq::empty()
    } else {
        seq![model_of(items[0])] + models_of(items.drop_first())
    }
}

pub open spec fn member_models(entries: Seq<(String, JsonValue)>) -> Seq<(Seq<char>, Json)>
    decreases entries, 1int,
{
    if entries.len() == 0 {
        Seq::empty()
    } else {
        proof {
            assert(decreases_to!(entries => entries[0]));
            assert(decreases_to!(entries[0] => entries[0].1));
        }
        seq![(entries[0].0@, model_of(entries[0].1))] + member_models(entries.drop_first())
    }
}

impl View for JsonValue {
    type V = Json;

    open spec fn view(&self) -> Json {
        model_of(*self)
    }
}

pub proof fn lemma_models_of(items: Seq<JsonValue>)
    ensures
        models_of(items).len() == items.len(),
        forall|i: int| 0 <= i < items.len() ==> #[trigger] models_of(items)[i] == model_of(items[i]),
    decreases items.len(),
{
    if items.len() > 0 {
        lemma_models_of(items.drop_first());
        assert forall|i: int| 0 <= i < items.len() implies #[trigger] models_of(items)[i] == model_of(
            items[i],
        ) by {
            if i > 0 {
                assert(items.drop_first()[i - 1] == items[i]);
            }
        }
    }
}

pub proof fn lemma_member_models(entries: Seq<(String, JsonValue)>)
    ensures
        member_models(entries).len() == entries.len(),
        forall|i: int|
            0 <= i < entries.len() ==> #[trigger] member_models(entries)[i] == (
                entries[i].0@,
                model_of(entries[i].1),
            ),
    decreases entries.len(),
{
    if entries.len() > 0 {
        lemma_member_models(entries.drop_first());
        assert forall|i: int| 0 <= i < entries.len() implies #[trigger] member_models(entries)[i] == (
            entries[i].0@,
            model_of(entries[i].1),
        ) by {
            if i > 0 {
                assert(entries.drop_first()[i - 1] == entries[i]);
            }
        }
    }
}

/// The value of the first member named `key`, if any.
pub open spec fn member(entries: Seq<(Seq<char>, Json)>, key: Seq<char>) -> Option<Json>
    decreases entries.len(),
{
    if entries.len() == 0 {
        None
    } else if entries[0].0 == key {
        Some(entries[0].1)
    } else {
        member(entries.drop_first(), key)
    }
}

/// Whether a member named `key` stands among the first `n` entries.
pub open spec fn key_among(entries: Seq<(Seq<char>, Json)>, key: Seq<char>, n: int) -> bool {
    exists|j: int| 0 <= j < n && #[trigger] entries[j].0 == key
}

pub proof fn lemma_member_at(entries: Seq<(Seq<char>, Json)>, key: Seq<char>, i: int)
    requires
        0 <= i < entries.len(),
        entries[i].0 == key,
        !key_among(entries, key, i),
    ensures
        member(entries, key) == Some(entries[i].1),
    decreases i,
{
    if i > 0 {
        assert(entries[0].0 != key) by {
            if entries[0].0 == key {
                assert(key_among(entries, key, i));
            }
        }
        let rest = entries.drop_first();
        assert(rest[i - 1] == entries[i]);
        assert(!key_among(rest, key, i - 1)) by {
            if key_among(rest, key, i - 1) {
                let j = choose|j: int| 0 <= j < i - 1 && #[trigger] rest[j].0 == key;
                assert(entries[j + 1].0 == key);
            }
        }
        lemma_member_at(rest, key, i - 1);
    }
}

pub proof fn lemma_member_absent(entries: Seq<(Seq<char>, Json)>, key: Seq<char>)
    requires
        !key_among(entries, key, entries.len() as int),
    ensures
        member(entries, key) is None,
    decreases entries.len(),
{
    if entries.len() > 0 {
        assert(entries[0].0 != key) by {
            if entries[0].0 == key {
                assert(key_among(entries, key, entries.len() as int));
            }
        }
        let rest = entries.drop_first();
        assert(!key_among(rest, key, rest.len() as int)) by {
            if key_among(rest, key, rest.len() as int) {
                let j = choose|j: int| 0 <= j < rest.len() && #[trigger] rest[j].0 == key;
                assert(entries[j + 1].0 == key);
            }
        }
        lemma_member_absent(rest, key);
    }
}

/// The model behind an optional reference.
pub open spec fn opt_model(o: Option<&JsonValue>) -> Option<Json> {
    match o {
        Some(v) => Some(v@),
        None => None,
    }
}

/// The integer that fits an `i64`, as `as_i64` reads it.
pub open spec fn number_as_i64(n: JsonNumber) -> Option<i64> {
    match n {
        JsonNumber::PosInt(u) => if u <= i64::MAX {
            Some(u as i64)
        } else {
            None
        },
        JsonNumber::NegInt(i) => Some(i),
        JsonNumber::Float(_) => None,
    }
}

impl Json {
    /// The member `key` of an object; nothing for any other value.
    pub open spec fn field(self, key: Seq<char>) -> Option<Json> {
        match self {
            Json::Object(entries) => member(entries, key),
            _ => None,
        }
    }

    /// The element at `index` of an array; nothing for any other value.
    pub open spec fn element(self, index: int) -> Option<Json> {
        match self {
            Json::Array(items) => if 0 <= index < items.len() {
                Some(items[index])
            } else {
                None
            },
            _ => None,
        }
    }

    pub open spec fn str_value(self) -> Option<Seq<char>> {
        match self {
            Json::Str(s) => Some(s),
            _ => None,
        }
    }

    pub open spec fn i64_value(self) -> Option<i64> {
        match self {
            Json::Number(n) => number_as_i64(n),
            _ => None,
        }
    }

    pub open spec fn bool_value(self) -> Option<bool> {
        match self {
            Json::Bool(b) => Some(b),
            _ => None,
        }
    }
}

/// `field` read through an optional value.
pub open spec fn opt_field(o: Option<Json>, key: Seq<char>) -> Option<Json> {
    match o {
        Some(v) => v.field(key),
        None => None,
    }
}

impl JsonValue {
    /// The member `key` of an object.
    pub fn get(&self, key: &str) -> (r: Option<&JsonValue>)
        ensures
            opt_model(r) == self@.field(key@),
    {
        match self {
            JsonValue::Object(entries) => {
                proof {
                    lemma_member_models(entries@);
                }
                let ghost m = member_models(entries@);
                assert(self@ == Json::Object(m));
                let mut i: usize = 0;
                while i < entries.len()
                    invariant
                        0 <= i <= entries@.len(),
                        *self == JsonValue::Object(*entries),
                        self@ == Json::Object(m),
                        m == member_models(entries@),
                        m.len() == entries@.len(),
                        forall|j: int|
                            0 <= j < entries@.len() ==> #[trigger] m[j] == (
                                entries@[j].0@,
                                model_of(entries@[j].1),
                            ),
                        !key_among(m, key@, i as int),
                    decreases entries@.len() - i,
                {
                    if str_eq(entries[i].0.as_str(), key) {
                        proof {
                            lemma_member_at(m, key@, i as int);
                        }
                        return Some(&entries[i].1);
                    }
                    assert(!key_among(m, key@, i + 1)) by {
                        if key_among(m, key@, i + 1) {
                            let j = choose|j: int| 0 <= j < i + 1 && #[trigger] m[j].0 == key@;
                            assert(j != i);
                        }
                    }
                    i = i + 1;
                }
                proof {
                    lemma_member_absent(m, key@);
                }
                None
            },
            _ => None,
        }
    }

    /// The element at `index` of an array.
    pub fn get_index(&self, index: usize) -> (r: Option<&JsonValue>)
        ensures
            opt_model(r) == self@.element(index as int),
    {
        match self {
            JsonValue::Array(items) => {
                proof {
                    lemma_models_of(items@);
                }
                if index < items.len() {
                    Some(&items[index])
                } else {
                    None
                }
            },
            _ => None,
        }
    }

    pub fn as_str(&self) -> (r: Option<&str>)
        ensures
            match r {
                Some(s) => self@.str_value() == Some(s@),
                None => self@.str_value() is None,
            },
    {
        match self {
            JsonValue::String(s) => Some(s.as_str()),
            _ => None,
        }
    }

    pub fn as_i64(&self) -> (r: Option<i64>)
        ensures
            r == self@.i64_value(),
    {
        match self {
            JsonValue::Number(n) => match n {
                JsonNumber::PosInt(u) => if *u <= 0x7fff_ffff_ffff_ffffu64 {
                    Some(*u as i64)
                } else {
                    None
                },
                JsonNumber::NegInt(i) => Some(*i),
                JsonNumber::Float(_) => None,
            },
            _ => None,
        }
    }

    pub fn as_bool(&self) -> (r: Option<bool>)
        ensures
            r == self@.bool_value(),
    {
        match self {
            JsonValue::Bool(b) => Some(*b),
            _ => None,
        }
    }

    pub fn as_object(&self) -> (r: Option<&Vec<(String, JsonValue)>>)
        ensures
            match r {
                Some(entries) => self@ == Json::Object(member_models(entries@)),
                None => !(self@ is Object),
            },
    {
        match self {
            JsonValue::Object(entries) => Some(entries),
            _ => None,
        }
    }

    pub fn as_array(&self) -> (r: Option<&Vec<JsonValue>>)
        ensures
            match r {
                Some(items) => self@ == Json::Array(models_of(items@)),
                None => !(self@ is Array),
            },
    {
        match self {
            JsonValue::Array(items) => Some(items),
            _ => None,
        }
    }

    pub fn is_object(&self) -> (r: bool)
        ensures
            r == (self@ is Object),
    {
        match self {
            JsonValue::Object(_) => true,
            _ => false,
        }
    }

    pub fn is_null(&self) -> (r: bool)
        ensures
            r == (self@ is Null),
    {
        match self {
            JsonValue::Null => true,
            _ => false,
        }
    }
}

/// A copy of `v` with the same model.
pub fn copy_value(v: &JsonValue) -> (r: JsonValue)
    ensures
        r@ == v@,
    decreases v,
{
    match v {
        JsonValue::Null => JsonValue::Null,
        JsonValue::Bool(b) => JsonValue::Bool(*b),
        JsonValue::Number(n) => JsonValue::Number(*n),
        JsonValue::String(s) => JsonValue::String(s.clone()),
        JsonValue::Array(items) => {
            let mut out: Vec<JsonValue> = Vec::new();
            let mut i: usize = 0;
            while i < items.len()
                invariant
                    0 <= i <= items@.len(),
                    *v == JsonValue::Array(*items),
                    out@.len() == i,
                    forall|j: int| 0 <= j < i ==> #[trigger] model_of(out@[j]) == model_of(items@[j]),
                decreases items@.len() - i,
            {
                proof {
                    assert(decreases_to!(*v => v->Array_0));
                    assert(decreases_to!(v->Array_0 => v->Array_0[i as int]));
                }
                let c = copy_value(&items[i]);
                out.push(c);
                i = i + 1;
            }
            proof {
                lemma_models_of(out@);
                lemma_models_of(items@);
                assert(models_of(out@) =~= models_of(items@));
            }
            JsonValue::Array(out)
        },
        JsonValue::Object(entries) => {
            let mut out: Vec<(String, JsonValue)> = Vec::new();
            let mut i: usize = 0;
            while i < entries.len()
                invariant
                    0 <= i <= entries@.len(),
                    *v == JsonValue::Object(*entries),
                    out@.len() == i,
                    forall|j: int|
                        0 <= j < i ==> #[trigger] out@[j].0@ == entries@[j].0@ && model_of(out@[j].1)
                            == model_of(entries@[j].1),
                decreases entries@.len() - i,
            {
                proof {
                    assert(decreases_to!(*v => v->Object_0));
                    assert(decreases_to!(v->Object_0 => v->Object_0[i as int]));
                    assert(decreases_to!(v->Object_0[i as int] => v->Object_0[i as int].1));
                }
                let k = entries[i].0.clone();
                let c = copy_value(&entries[i].1);
                out.push((k, c));
                i = i + 1;
            }
            proof {
                lemma_member_models(out@);
                lemma_member_models(entries@);
                assert(member_models(out@) =~= member_models(entries@));
            }
            JsonValue::Object(out)
        },
    }
}

impl Clone for JsonValue {
    fn clone(&self) -> (r: Self)
        ensures
            r@ == self@,
    {
        copy_value(self)
    }
}

} // verus!
