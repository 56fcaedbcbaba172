//! What the sample's two actions show and do, apart from sending it.
use vstd::prelude::*;

use crate::json::{Json, JsonValue};
use crate::protocol::commands::{i32_value, int_json, text_value};
use crate::sample::contracts::{
    inspector_command_of, CounterSettings, CounterSettingsView, PropertyInspectorCommand,
};
use crate::text::{decimal_text, i32_to_text, is_blank, push_str, str_eq, trimmed_is_empty};

verus! {

/// The keypad action: each press adds the step to the shared count.
pub struct CounterAction;

/// The dial action: rotating adds ticks times the step, pressing resets the count.
pub struct DialAction;

/// The label an action shows: the configured one, or `Count` when it is blank.
pub open spec fn label_of(s: CounterSettingsView) -> Seq<char> {
    if is_blank(s.label) {
        "Count"@
    } else {
        s.label
    }
}

/// The step an action applies: the configured increment, at least 1.
pub open spec fn step_of(s: CounterSettingsView) -> i32 {
    if s.increment < 1 {
        1
    } else {
        s.increment
    }
}

pub fn display_label(settings: &CounterSettings) -> (r: String)
    ensures
        r@ == label_of(settings@),
{
    if trimmed_is_empty(settings.label.as_str()) {
        "Count".to_owned()
    } else {
        settings.label.clone()
    }
}

pub fn step(settings: &CounterSettings) -> (r: i32)
    ensures
        r == step_of(settings@),
{
    if settings.increment < 1 {
        1
    } else {
        settings.increment
    }
}

/// The keypad title: `{label}\n{count} (+{step})`.
pub open spec fn counter_title_text(s: CounterSettingsView, count: i32) -> Seq<char> {
    label_of(s) + "\n"@ + decimal_text(count as int) + " (+"@ + decimal_text(step_of(s) as int)
        + ")"@
}

pub fn counter_title(settings: &CounterSettings, count: i32) -> (r: String)
    ensures
        r@ == counter_title_text(settings@, count),
{
    let mut out = display_label(settings);
    push_str(&mut out, "\n");
    push_str(&mut out, i32_to_text(count).as_str());
    push_str(&mut out, " (+");
    push_str(&mut out, i32_to_text(step(settings)).as_str());
    push_str(&mut out, ")");
    out
}

/// The dial title: `{label}: {count}`.
pub open spec fn dial_title_text(s: CounterSettingsView, count: i32) -> Seq<char> {
    label_of(s) + ": "@ + decimal_text(count as int)
}

pub fn dial_title(settings: &CounterSettings, count: i32) -> (r: String)
    ensures
        r@ == dial_title_text(settings@, count),
{
    let mut out = display_label(settings);
    push_str(&mut out, ": ");
    push_str(&mut out, i32_to_text(count).as_str());
    out
}

/// The count held to the range of the dial's indicator, 0 to 100.
pub open spec fn indicator_of(count: i32) -> i32 {
    if count < 0 {
        0
    } else if count > 100 {
        100
    } else {
        count
    }
}

/// The dial's touch-strip feedback: `{ indicator, title, value }`.
pub open spec fn dial_feedback_json(s: CounterSettingsView, count: i32) -> Json {
    Json::Object(
        seq![
            ("indicator"@, int_json(indicator_of(count) as int)),
            ("title"@, Json::Str(label_of(s))),
            ("value"@, Json::Str(decimal_text(count as int))),
        ],
    )
}

pub fn dial_feedback(settings: &CounterSettings, count: i32) -> (r: JsonValue)
    ensures
        r@ == dial_feedback_json(settings@, count),
{
    let indicator = if count < 0 {
        0
    } else if count > 100 {
        100
    } else {
        count
    };
    let label = display_label(settings);
    let value = i32_to_text(count);
    let entries = vec![
        ("indicator".to_owned(), i32_value(indicator)),
        ("title".to_owned(), text_value(label.as_str())),
        ("value".to_owned(), text_value(value.as_str())),
    ];
    assert(Seq::new(entries@.len(), |i: int| (entries@[i].0@, entries@[i].1@)) =~= seq![
        ("indicator"@, int_json(indicator_of(count) as int)),
        ("title"@, Json::Str(label_of(settings@))),
        ("value"@, Json::Str(decimal_text(count as int))),
    ]);
    crate::protocol::commands::object_of(entries)
}

/// What a Property Inspector request adds to a count of `count`: `reset` adds
/// its negation (wrapping), `add` adds the step; a payload that is not a request,
/// or any other request, reads as one with no type and adds nothing.
pub open spec fn inspector_delta_of(payload: Json, s: CounterSettingsView, count: i32) -> Option<i32> {
    let kind = match inspector_command_of(payload) {
        Some(k) => k,
        None => Seq::empty(),
    };
    if kind == "reset"@ {
        Some(0i32.wrapping_sub(count))
    } else if kind == "add"@ {
        Some(step_of(s))
    } else {
        None
    }
}

pub fn inspector_delta(payload: &JsonValue, settings: &CounterSettings, count: i32) -> (r: Option<i32>)
    ensures
        r == inspector_delta_of(payload@, settings@, count),
{
    let command = match PropertyInspectorCommand::from_json(payload) {
        Some(c) => c,
        None => PropertyInspectorCommand::default(),
    };
    if str_eq(command.command_type.as_str(), "reset") {
        Some(0i32.wrapping_sub(count))
    } else if str_eq(command.command_type.as_str(), "add") {
        Some(step(settings))
    } else {
        None
    }
}

/// What a dial rotation of `ticks` adds: ticks times the step (wrapping).
pub fn rotation_delta(ticks: i32, settings: &CounterSettings) -> (r: i32)
    ensures
        r == ticks.wrapping_mul(step_of(settings@)),
{
    ticks.wrapping_mul(step(settings))
}

} // verus!
