//! The messages the sample exchanges with its Property Inspector.
use vstd::prelude::*;

use crate::decode::{number_as_i32, read_number_i32, record_field, record_field_exec, record_shape, record_shape_exec};
use crate::json::{Json, JsonValue};
use crate::protocol::commands::{i32_value, int_json, text_value};

verus! {

/// Settings of both sample actions.
pub struct CounterSettings {
    /// Title label (`Count` when absent).
    pub label: String,
    /// Step of each press (1 when absent).
    pub increment: i32,
}

pub struct CounterSettingsView {
    pub label: Seq<char>,
    pub increment: i32,
}

impl View for CounterSettings {
    type V = CounterSettingsView;

    open spec fn view(&self) -> CounterSettingsView {
        CounterSettingsView { label: self.label@, increment: self.increment }
    }
}

/// The label of settings that name none: `Count`.
pub fn default_label() -> (r: String)
    ensures
        r@ == "Count"@,
{
    "Count".to_owned()
}

/// The step of settings that name none: 1.
pub fn default_increment() -> (r: i32)
    ensures
        r == 1,
{
    1
}

impl Default for CounterSettings {
    fn default() -> (r: CounterSettings)
        ensures
            r@ == (CounterSettingsView { label: "Count"@, increment: 1 }),
    {
        CounterSettings { label: default_label(), increment: default_increment() }
    }
}

impl Clone for CounterSettings {
    fn clone(&self) -> (r: Self)
        ensures
            r@ == self@,
    {
        CounterSettings { label: self.label.clone(), increment: self.increment }
    }
}

/// The settings a JSON value carries (`label` text, `increment` integer).
pub open spec fn counter_settings_of(v: Json) -> Option<CounterSettingsView> {
    if !record_shape(v, 2) {
        None
    } else {
        let label = match record_field(v, "label"@, 0) {
            None => Some("Count"@),
            Some(Json::Str(s)) => Some(s),
            Some(_) => None,
        };
        let increment = match record_field(v, "increment"@, 1) {
            None => Some(1i32),
            Some(Json::Number(n)) => number_as_i32(n),
            Some(_) => None,
        };
        match (label, increment) {
            (Some(l), Some(i)) => Some(CounterSettingsView { label: l, increment: i }),
            _ => None,
        }
    }
}

impl CounterSettings {
    /// Read settings out of a JSON value.
    pub fn from_json(v: &JsonValue) -> (r: Option<CounterSettings>)
        ensures
            match r {
                Some(s) => counter_settings_of(v@) == Some(s@),
                None => counter_settings_of(v@) is None,
            },
    {
        if !record_shape_exec(v, 2) {
            return None;
        }
        let label = match record_field_exec(v, "label", 0) {
            None => Some(default_label()),
            Some(JsonValue::String(s)) => Some(s.clone()),
            Some(_) => None,
        };
        let increment = match record_field_exec(v, "increment", 1) {
            None => Some(default_increment()),
            Some(JsonValue::Number(n)) => read_number_i32(*n),
            Some(_) => None,
        };
        match (label, increment) {
            (Some(l), Some(i)) => Some(CounterSettings { label: l, increment: i }),
            _ => None,
        }
    }
}

/// Tells the Property Inspector the current count.
pub struct CountChangedMessage {
    /// The message type (the wire field `type`), `countChanged`.
    pub message_type: String,
    pub count: i32,
}

/// The JSON object of a count message: `{ count, type }`.
pub open spec fn count_changed_json(message_type: Seq<char>, count: i32) -> Json {
    Json::Object(seq![("count"@, int_json(count as int)), ("type"@, Json::Str(message_type))])
}

/// The type of a count message that names none: `countChanged`.
pub fn count_changed_type() -> (r: String)
    ensures
        r@ == "countChanged"@,
{
    "countChanged".to_owned()
}

/// The count message a JSON value carries: `type` text (`countChanged` when
/// absent) and a required `count` integer.
pub open spec fn count_changed_of(v: Json) -> Option<(Seq<char>, i32)> {
    if !record_shape(v, 2) {
        None
    } else {
        let message_type = match record_field(v, "type"@, 0) {
            None => Some("countChanged"@),
            Some(Json::Str(s)) => Some(s),
            Some(_) => None,
        };
        let count = match record_field(v, "count"@, 1) {
            Some(Json::Number(n)) => number_as_i32(n),
            _ => None,
        };
        match (message_type, count) {
            (Some(t), Some(c)) => Some((t, c)),
            _ => None,
        }
    }
}

impl CountChangedMessage {
    /// The message announcing `count`.
    pub fn new(count: i32) -> (r: CountChangedMessage)
        ensures
            r.message_type@ == "countChanged"@,
            r.count == count,
    {
        CountChangedMessage { message_type: count_changed_type(), count }
    }

    /// Read a count message out of a JSON value.
    pub fn from_json(v: &JsonValue) -> (r: Option<CountChangedMessage>)
        ensures
            match r {
                Some(m) => count_changed_of(v@) == Some((m.message_type@, m.count)),
                None => count_changed_of(v@) is None,
            },
    {
        if !record_shape_exec(v, 2) {
            return None;
        }
        let message_type = match record_field_exec(v, "type", 0) {
            None => Some(count_changed_type()),
            Some(JsonValue::String(s)) => Some(s.clone()),
            Some(_) => None,
        };
        let count = match record_field_exec(v, "count", 1) {
            Some(JsonValue::Number(n)) => read_number_i32(*n),
            _ => None,
        };
        match (message_type, count) {
            (Some(t), Some(c)) => Some(CountChangedMessage { message_type: t, count: c }),
            _ => None,
        }
    }

    /// The JSON object this message is sent as.
    pub fn to_json(&self) -> (r: JsonValue)
        ensures
            r@ == count_changed_json(self.message_type@, self.count),
    {
        let entries = vec![
            ("count".to_owned(), i32_value(self.count)),
            ("type".to_owned(), text_value(self.message_type.as_str())),
        ];
        let r = crate::protocol::commands::object_of(entries);
        assert(Seq::new(entries@.len(), |i: int| (entries@[i].0@, entries@[i].1@)) =~= seq![
            ("count"@, int_json(self.count as int)),
            ("type"@, Json::Str(self.message_type@)),
        ]);
        r
    }
}

/// A request from the Property Inspector.
pub struct PropertyInspectorCommand {
    /// The request type (the wire field `type`): `reset` or `add`.
    pub command_type: String,
}

impl Default for PropertyInspectorCommand {
    fn default() -> (r: PropertyInspectorCommand)
        ensures
            r.command_type@ == Seq::<char>::empty(),
    {
        PropertyInspectorCommand { command_type: String::new() }
    }
}

/// The request type a JSON value carries (its `type` text, empty when absent).
pub open spec fn inspector_command_of(v: Json) -> Option<Seq<char>> {
    if !record_shape(v, 1) {
        None
    } else {
        match record_field(v, "type"@, 0) {
            None => Some(Seq::empty()),
            Some(Json::Str(s)) => Some(s),
            Some(_) => None,
        }
    }
}

impl PropertyInspectorCommand {
    /// Read a request out of a JSON value.
    pub fn from_json(v: &JsonValue) -> (r: Option<PropertyInspectorCommand>)
        ensures
            match r {
                Some(c) => inspector_command_of(v@) == Some(c.command_type@),
                None => inspector_command_of(v@) is None,
            },
    {
        if !record_shape_exec(v, 1) {
            return None;
        }
        match record_field_exec(v, "type", 0) {
            None => Some(PropertyInspectorCommand::default()),
            Some(JsonValue::String(s)) => Some(PropertyInspectorCommand { command_type: s.clone() }),
            Some(_) => None,
        }
    }
}

} // verus!
