//! Reading typed records out of JSON documents.
//!
//! A record is read from an object (its fields by name, unknown members ignored)
//! or from an array (its fields by position, no more elements than fields). A field
//! that is absent takes its default; a field whose value has the wrong type makes
//! the whole record unreadable. Each spec function below returns `None` exactly
//! when the record cannot be read.
use vstd::prelude::*;

use crate::json::{opt_model, Json, JsonNumber, JsonValue};

verus! {

/// Whether `v` can carry a record of `n` fields.
pub open spec fn record_shape(v: Json, n: int) -> bool {
    match v {
        Json::Object(_) => true,
        Json::Array(items) => items.len() <= n,
        _ => false,
    }
}

/// The field called `name`, stored at position `index`, of a record carried by `v`.
pub open spec fn record_field(v: Json, name: Seq<char>, index: int) -> Option<Json> {
    match v {
        Json::Object(_) => v.field(name),
        Json::Array(_) => v.element(index),
        _ => None,
    }
}

/// A text field: absent reads as empty.
pub open spec fn de_text(f: Option<Json>) -> Option<Seq<char>> {
    match f {
        None => Some(Seq::empty()),
        Some(Json::Str(s)) => Some(s),
        Some(_) => None,
    }
}

/// An optional text field: absent or `null` reads as nothing.
pub open spec fn de_opt_text(f: Option<Json>) -> Option<Option<Seq<char>>> {
    match f {
        None => Some(None),
        Some(Json::Null) => Some(None),
        Some(Json::Str(s)) => Some(Some(s)),
        Some(_) => None,
    }
}

/// A flag field: absent reads as `false`.
pub open spec fn de_flag(f: Option<Json>) -> Option<bool> {
    match f {
        None => Some(false),
        Some(Json::Bool(b)) => Some(b),
        Some(_) => None,
    }
}

/// A JSON integer that fits an `i32`.
pub open spec fn number_as_i32(n: JsonNumber) -> Option<i32> {
    match n {
        JsonNumber::PosInt(u) => if u <= i32::MAX {
            Some(u as i32)
        } else {
            None
        },
        JsonNumber::NegInt(i) => if i32::MIN <= i && i <= i32::MAX {
            Some(i as i32)
        } else {
            None
        },
        JsonNumber::Float(_) => None,
    }
}

/// A required `i32` field: it must be present and hold an integer that fits.
pub open spec fn de_i32(f: Option<Json>) -> Option<i32> {
    match f {
        Some(Json::Number(n)) => number_as_i32(n),
        _ => None,
    }
}

/// A JSON integer that fits an unsigned field with the given largest value.
pub open spec fn number_as_unsigned(n: JsonNumber, max: u64) -> Option<u64> {
    match n {
        JsonNumber::PosInt(u) => if u <= max {
            Some(u)
        } else {
            None
        },
        _ => None,
    }
}

/// A real-number field, kept as the number that carried it: absent reads as 0.
pub open spec fn de_real(f: Option<Json>) -> Option<JsonNumber> {
    match f {
        None => Some(JsonNumber::PosInt(0)),
        Some(Json::Number(n)) => Some(n),
        Some(_) => None,
    }
}

/// An optional JSON field: absent or `null` reads as nothing.
pub open spec fn de_opt_json(f: Option<Json>) -> Option<Json> {
    match f {
        None => None,
        Some(Json::Null) => None,
        Some(v) => Some(v),
    }
}

/// Whether `v` can carry a record of `n` fields.
pub fn record_shape_exec(v: &JsonValue, n: usize) -> (r: bool)
    ensures
        r == record_shape(v@, n as int),
{
    match v {
        JsonValue::Object(_) => true,
        JsonValue::Array(items) => {
            proof {
                crate::json::lemma_models_of(items@);
            }
            items.len() <= n
        },
        _ => false,
    }
}

/// The field called `name`, stored at position `index`, of a record carried by `v`.
pub fn record_field_exec<'a>(v: &'a JsonValue, name: &str, index: usize) -> (r: Option<&'a JsonValue>)
    ensures
        opt_model(r) == record_field(v@, name@, index as int),
{
    match v {
        JsonValue::Object(_) => v.get(name),
        JsonValue::Array(_) => v.get_index(index),
        _ => None,
    }
}

/// Reads a text field.
pub fn read_text(f: Option<&JsonValue>) -> (r: Option<String>)
    ensures
        match r {
            Some(s) => de_text(opt_model(f)) == Some(s@),
            None => de_text(opt_model(f)) is None,
        },
{
    match f {
        None => Some(String::new()),
        Some(JsonValue::String(s)) => Some(s.clone()),
        Some(_) => None,
    }
}

/// Reads an optional text field.
pub fn read_opt_text(f: Option<&JsonValue>) -> (r: Option<Option<String>>)
    ensures
        match r {
            Some(o) => de_opt_text(opt_model(f)) == Some(crate::protocol::events::opt_str(o)),
            None => de_opt_text(opt_model(f)) is None,
        },
{
    match f {
        None => Some(None),
        Some(JsonValue::Null) => Some(None),
        Some(JsonValue::String(s)) => Some(Some(s.clone())),
        Some(_) => None,
    }
}

/// Reads a flag field.
pub fn read_flag(f: Option<&JsonValue>) -> (r: Option<bool>)
    ensures
        r == de_flag(opt_model(f)),
{
    match f {
        None => Some(false),
        Some(JsonValue::Bool(b)) => Some(*b),
        Some(_) => None,
    }
}

/// Reads an `i32` out of a JSON number.
pub fn read_number_i32(n: JsonNumber) -> (r: Option<i32>)
    ensures
        r == number_as_i32(n),
{
    match n {
        JsonNumber::PosInt(u) => if u <= 0x7fff_ffffu64 {
            Some(u as i32)
        } else {
            None
        },
        JsonNumber::NegInt(i) => if -0x8000_0000i64 <= i && i <= 0x7fff_ffffi64 {
            Some(i as i32)
        } else {
            None
        },
        JsonNumber::Float(_) => None,
    }
}

/// Reads a required `i32` field.
pub fn read_i32(f: Option<&JsonValue>) -> (r: Option<i32>)
    ensures
        r == de_i32(opt_model(f)),
{
    match f {
        Some(JsonValue::Number(n)) => read_number_i32(*n),
        _ => None,
    }
}

/// Reads an unsigned number no larger than `max`.
pub fn read_number_unsigned(n: JsonNumber, max: u64) -> (r: Option<u64>)
    ensures
        r == number_as_unsigned(n, max),
{
    match n {
        JsonNumber::PosInt(u) => if u <= max {
            Some(u)
        } else {
            None
        },
        _ => None,
    }
}

/// Reads a real-number field.
pub fn read_real(f: Option<&JsonValue>) -> (r: Option<JsonNumber>)
    ensures
        r == de_real(opt_model(f)),
{
    match f {
        None => Some(JsonNumber::PosInt(0)),
        Some(JsonValue::Number(n)) => Some(*n),
        Some(_) => None,
    }
}

/// Reads an optional JSON field.
pub fn read_opt_json(f: Option<&JsonValue>) -> (r: Option<JsonValue>)
    ensures
        crate::protocol::events::opt_json(r) == de_opt_json(opt_model(f)),
{
    match f {
        None => None,
        Some(JsonValue::Null) => None,
        Some(v) => Some(v.clone()),
    }
}

} // verus!
