use streamdeck_plugin::plugin::logging::{log_lines, log_location, LogBase, LogPlatform};
use serde_json::Value;
use streamdeck_plugin::json::{JsonNumber, JsonValue};
use streamdeck_plugin::plugin::action::{handler_plan, ActionEvent, ActionHandler, HandlerStep};
use streamdeck_plugin::plugin::dispatch::{lifecycle_event, Dispatcher, LifecycleEvent, Route};

use streamdeck_plugin::plugin::manifest::{check_uuids, manifest_uuids, not_in};
use streamdeck_plugin::plugin::registry::{ActionRegistration, Registry};
use streamdeck_plugin::protocol::error::{Error as WireError, TransportError};
use streamdeck_plugin::protocol::events::{Controller, IncomingMessage};
use streamdeck_plugin::sample::actions::{
    counter_title, dial_feedback, dial_title, display_label, inspector_delta, rotation_delta, step,
};
use streamdeck_plugin::sample::contracts::{
    count_changed_type, default_increment, default_label, CountChangedMessage, CounterSettings,
    PropertyInspectorCommand,
};
use streamdeck_plugin::sample::store::{AppState, CounterStore};
use streamdeck_plugin::text::{to_ascii_lowercase, trim_text};

fn to_model(v: &Value) -> JsonValue {
    match v {
        Value::Null => JsonValue::Null,
        Value::Bool(b) => JsonValue::Bool(*b),
        Value::Number(n) => JsonValue::Number(if let Some(u) = n.as_u64() {
            JsonNumber::PosInt(u)
        } else if let Some(i) = n.as_i64() {
            JsonNumber::NegInt(i)
        } else {
            JsonNumber::Float(n.as_f64().unwrap().to_bits())
        }),
        Value::String(s) => JsonValue::String(s.clone()),
        Value::Array(items) => JsonValue::Array(items.iter().map(to_model).collect()),
        Value::Object(members) => JsonValue::Object(
            members.iter().map(|(k, v)| (k.clone(), to_model(v))).collect(),
        ),
    }
}

fn doc(text: &str) -> JsonValue {
    to_model(&serde_json::from_str::<Value>(text).unwrap())
}

fn parse(text: &str) -> IncomingMessage {
    IncomingMessage::from_json(&doc(text)).unwrap()
}

/// A test action instance: it records what its handlers saw.
struct Recorder {
    increment: i32,
}

type Factory = fn() -> Recorder;

fn new_recorder() -> Recorder {
    Recorder { increment: 0 }
}

fn increment_of(settings: &JsonValue) -> i32 {
    settings.get("increment").and_then(|v| v.as_i64()).unwrap_or(0) as i32
}

fn dispatcher() -> Dispatcher<Factory, Recorder> {
    let mut registry = Registry::new();
    registry.add(ActionRegistration {
        uuid: "dev.test.counter".to_string(),
        controller: Controller::Keypad,
        factory: new_recorder as Factory,
    });
    Dispatcher::new(registry)
}

/// Run one message the way the host does, recording the handlers that ran.
fn dispatch(dispatcher: &mut Dispatcher<Factory, Recorder>, events: &mut Vec<String>, text: &str) {
    let message = parse(text);
    let mut appeared: Option<(String, Recorder)> = None;
    let mut delivered: Option<(String, ActionEvent)> = None;
    let mut disappeared: Option<String> = None;
    match dispatcher.route(&message) {
        Route::Appear(registration, appearance) => {
            let mut instance = (registration.factory)();
            instance.increment = increment_of(&appearance.payload.settings);
            events.push("willAppear".to_string());
            appeared = Some((appearance.context.clone(), instance));
        }
        Route::Deliver(context, event) => delivered = Some((context, event)),
        Route::Disappear(context, _) => disappeared = Some(context),
        Route::Lifecycle(_) => events.push("lifecycle".to_string()),
        Route::Ignore => {}
    }
    if let Some((context, instance)) = appeared {
        dispatcher.insert_instance(context, instance);
    }
    if let Some(context) = disappeared {
        assert!(dispatcher.remove_instance(&context).is_some());
        events.push("willDisappear".to_string());
    }
    if let Some((context, event)) = delivered {
        let mut instance = dispatcher.remove_instance(&context).unwrap();
        match event {
            ActionEvent::KeyDown(_) => events.push(format!("keyDown:{}", instance.increment)),
            ActionEvent::DidReceiveSettings(payload) => {
                let previous = instance.increment;
                instance.increment = increment_of(&payload.settings);
                events.push(format!("settings:{}->{}", previous, instance.increment));
            }
            ActionEvent::PropertyInspectorMessage(_) => events.push("pi".to_string()),
            _ => events.push("other".to_string()),
        }
        dispatcher.insert_instance(context, instance);
    }
}

#[test]
fn will_appear_then_key_down_uses_typed_settings() {
    let mut dispatcher = dispatcher();
    let mut events = Vec::new();
    dispatch(
        &mut dispatcher,
        &mut events,
        r#"{
          "event": "willAppear",
          "action": "dev.test.counter",
          "context": "ctx",
          "device": "dev",
          "payload": { "controller": "Keypad", "settings": { "increment": 5 } }
        }"#,
    );
    dispatch(
        &mut dispatcher,
        &mut events,
        r#"{
          "event": "keyDown",
          "action": "dev.test.counter",
          "context": "ctx",
          "device": "dev",
          "payload": { "controller": "Keypad", "settings": { "increment": 5 } }
        }"#,
    );
    assert!(events.contains(&"willAppear".to_string()));
    assert!(events.contains(&"keyDown:5".to_string()));
}

#[test]
fn did_receive_settings_updates_typed_settings_and_raises_hook() {
    let mut dispatcher = dispatcher();
    let mut events = Vec::new();
    dispatch(
        &mut dispatcher,
        &mut events,
        r#"{
          "event": "willAppear",
          "action": "dev.test.counter",
          "context": "ctx",
          "device": "dev",
          "payload": { "settings": { "increment": 1 } }
        }"#,
    );
    dispatch(
        &mut dispatcher,
        &mut events,
        r#"{
          "event": "didReceiveSettings",
          "action": "dev.test.counter",
          "context": "ctx",
          "device": "dev",
          "payload": { "settings": { "increment": 9 } }
        }"#,
    );
    assert!(events.contains(&"settings:1->9".to_string()));
}

#[test]
fn send_to_plugin_reaches_action() {
    let mut dispatcher = dispatcher();
    let mut events = Vec::new();
    dispatch(
        &mut dispatcher,
        &mut events,
        r#"{
          "event": "willAppear",
          "action": "dev.test.counter",
          "context": "ctx",
          "device": "dev",
          "payload": { "settings": {} }
        }"#,
    );
    dispatch(
        &mut dispatcher,
        &mut events,
        r#"{
          "event": "sendToPlugin",
          "action": "dev.test.counter",
          "context": "ctx",
          "payload": { "type": "refresh" }
        }"#,
    );
    assert!(events.contains(&"pi".to_string()));
}

#[test]
fn will_disappear_removes_instance() {
    let mut dispatcher = dispatcher();
    let mut events = Vec::new();
    for text in [
        r#"{"event":"willAppear","action":"dev.test.counter","context":"ctx","device":"dev","payload":{"settings":{}}}"#,
        r#"{"event":"willDisappear","action":"dev.test.counter","context":"ctx","device":"dev","payload":{"settings":{}}}"#,
        r#"{"event":"keyDown","action":"dev.test.counter","context":"ctx","device":"dev","payload":{"settings":{}}}"#,
    ] {
        dispatch(&mut dispatcher, &mut events, text);
    }
    assert!(dispatcher.instance("ctx").is_none());
    assert_eq!(events, vec!["willAppear".to_string(), "willDisappear".to_string()]);
}

#[test]
fn action_event_from_message_reads_key_down() {
    let message = parse(r#"{"event":"keyDown","payload":{"settings":{"increment":1}}}"#);
    assert!(matches!(ActionEvent::from_message(&message), Some(ActionEvent::KeyDown(_))));
}

#[test]
fn appearance_matches_uuid_in_any_case_and_skips_unknown_ones() {
    let mut dispatcher = dispatcher();
    let mut events = Vec::new();
    dispatch(
        &mut dispatcher,
        &mut events,
        r#"{"event":"willAppear","action":"DEV.Test.Counter","context":"a","payload":{"settings":{"increment":2}}}"#,
    );
    dispatch(
        &mut dispatcher,
        &mut events,
        r#"{"event":"willAppear","action":"dev.test.other","context":"b","payload":{"settings":{}}}"#,
    );
    assert!(dispatcher.instance("a").is_some());
    assert!(dispatcher.instance("b").is_none());
    assert_eq!(dispatcher.instance("a").unwrap().increment, 2);
}

#[test]
fn lifecycle_events_reach_hooks_without_instances() {
    let dispatcher = dispatcher();
    let wake = parse(r#"{"event":"systemDidWakeUp"}"#);
    assert!(matches!(dispatcher.route(&wake), Route::Lifecycle(LifecycleEvent::SystemDidWakeUp)));
    let link = parse(r#"{"event":"didReceiveDeepLink","payload":{"url":"hello/world"}}"#);
    match lifecycle_event(&link) {
        Some(Some(LifecycleEvent::DidReceiveDeepLink(url))) => assert_eq!(url, "hello/world"),
        _ => panic!("expected a deep link"),
    }
    let launch = parse(r#"{"event":"applicationDidLaunch","payload":{"application":"com.app"}}"#);
    match lifecycle_event(&launch) {
        Some(Some(LifecycleEvent::ApplicationDidLaunch(app))) => assert_eq!(app, "com.app"),
        _ => panic!("expected an application launch"),
    }
    let bare_connect = parse(r#"{"event":"deviceDidConnect"}"#);
    assert!(matches!(lifecycle_event(&bare_connect), Some(None)));
    assert!(matches!(dispatcher.route(&bare_connect), Route::Ignore));
    let key = parse(r#"{"event":"keyDown","context":"nobody"}"#);
    assert!(matches!(lifecycle_event(&key), None));
    assert!(matches!(dispatcher.route(&key), Route::Ignore));
}

#[test]
fn registry_lookup_ignores_case_and_lists_sorted() {
    let mut registry: Registry<u8> = Registry::new();
    for (uuid, tag) in [("dev.b", 1u8), ("Dev.A", 2), ("dev.c", 3), ("DEV.B", 4)] {
        registry.add(ActionRegistration { uuid: uuid.to_string(), controller: Controller::Keypad, factory: tag });
    }
    assert_eq!(registry.get("dev.a").unwrap().factory, 2);
    assert_eq!(registry.get("dev.b").unwrap().factory, 4);
    assert!(registry.get("dev.d").is_none());
    assert_eq!(registry.uuids(), vec!["DEV.B".to_string(), "Dev.A".to_string(), "dev.c".to_string()]);
}

#[test]
fn manifest_check_reports_both_sides() {
    let mut registry: Registry<u8> = Registry::new();
    for uuid in ["dev.a", "dev.c"] {
        registry.add(ActionRegistration { uuid: uuid.to_string(), controller: Controller::Keypad, factory: 0 });
    }
    let manifest = doc(r#"{"Actions":[{"UUID":"DEV.A"},{"UUID":"dev.b"},{"UUID":""}]}"#);
    assert_eq!(
        manifest_uuids(&manifest).unwrap(),
        vec!["DEV.A".to_string(), "dev.b".to_string(), "".to_string()]
    );
    let mismatch = check_uuids(&registry, &manifest).unwrap();
    assert_eq!(mismatch.missing, vec!["dev.b".to_string()]);
    assert_eq!(mismatch.extra, vec!["dev.c".to_string()]);
    assert!(!mismatch.is_empty());

    let matching = doc(r#"{"Actions":[{"UUID":"dev.c"},{"UUID":"Dev.A"}]}"#);
    assert!(check_uuids(&registry, &matching).unwrap().is_empty());
    assert!(check_uuids(&registry, &doc(r#"{"Actions":{}}"#)).is_none());
    assert!(check_uuids(&registry, &doc(r#"[]"#)).unwrap().missing.is_empty());
    assert_eq!(
        not_in(&vec!["x".to_string(), "y".to_string()], &vec!["y".to_string()]),
        vec!["x".to_string()]
    );
}

#[test]
fn sample_titles_and_feedback() {
    let blank = CounterSettings { label: "  ".to_string(), increment: 0 };
    assert_eq!(display_label(&blank), "Count");
    assert_eq!(step(&blank), 1);
    assert_eq!(counter_title(&blank, 3), "Count\n3 (+1)");
    let named = CounterSettings { label: "Hits".to_string(), increment: 4 };
    assert_eq!(counter_title(&named, -2), "Hits\n-2 (+4)");
    assert_eq!(dial_title(&named, 7), "Hits: 7");
    let feedback = dial_feedback(&named, 150);
    assert_eq!(feedback.get("indicator").and_then(|v| v.as_i64()), Some(100));
    assert_eq!(feedback.get("value").and_then(|v| v.as_str()), Some("150"));
    assert_eq!(feedback.get("title").and_then(|v| v.as_str()), Some("Hits"));
    assert_eq!(dial_feedback(&named, -5).get("indicator").and_then(|v| v.as_i64()), Some(0));
    assert_eq!(rotation_delta(-3, &named), -12);
    assert_eq!(rotation_delta(i32::MAX, &named), i32::MAX.wrapping_mul(4));
}

#[test]
fn inspector_requests_change_the_count() {
    let settings = CounterSettings { label: "Count".to_string(), increment: 3 };
    assert_eq!(inspector_delta(&doc(r#"{"type":"reset"}"#), &settings, 7), Some(-7));
    assert_eq!(inspector_delta(&doc(r#"{"type":"add"}"#), &settings, 7), Some(3));
    assert_eq!(inspector_delta(&doc(r#"{"type":"other"}"#), &settings, 7), None);
    assert_eq!(inspector_delta(&doc(r#"{"type":5}"#), &settings, 7), None);
    let reset = inspector_delta(&doc(r#"{"type":"reset"}"#), &settings, i32::MIN).unwrap();
    assert_eq!(i32::MIN.wrapping_add(reset), 0);
}

#[test]
fn settings_and_messages_read_with_defaults() {
    let defaults = CounterSettings::from_json(&doc("{}")).unwrap();
    assert_eq!(defaults.label, default_label());
    assert_eq!(defaults.increment, default_increment());
    assert_eq!(default_label(), "Count");
    assert_eq!(default_increment(), 1);
    let read = CounterSettings::from_json(&doc(r#"{"label":"L","increment":-4}"#)).unwrap();
    assert_eq!((read.label.as_str(), read.increment), ("L", -4));
    assert!(CounterSettings::from_json(&doc(r#"{"increment":"x"}"#)).is_none());
    assert!(CounterSettings::from_json(&doc(r#"{"increment":3000000000}"#)).is_none());
    assert!(CounterSettings::default().label == "Count");

    let message = CountChangedMessage::new(12);
    assert_eq!(message.message_type, count_changed_type());
    let json = message.to_json();
    assert_eq!(json.get("count").and_then(|v| v.as_i64()), Some(12));
    assert_eq!(json.get("type").and_then(|v| v.as_str()), Some("countChanged"));
    let back = CountChangedMessage::from_json(&doc(r#"{"count":4}"#)).unwrap();
    assert_eq!((back.message_type.as_str(), back.count), ("countChanged", 4));
    assert!(CountChangedMessage::from_json(&doc(r#"{"type":"x"}"#)).is_none());

    assert_eq!(PropertyInspectorCommand::from_json(&doc("{}")).unwrap().command_type, "");
    assert_eq!(PropertyInspectorCommand::from_json(&doc(r#"{"type":"add"}"#)).unwrap().command_type, "add");
}

#[test]
fn counter_store_adds() {
    let store = CounterStore::new();
    assert_eq!(store.count(), 0);
    assert_eq!(store.add(5), 5);
    assert_eq!(store.add(-2), 3);
    assert_eq!(store.count(), 3);
    let state = AppState::new();
    assert_eq!(state.store.count(), 0);
}

#[test]
fn log_text_becomes_trimmed_nonblank_lines() {
    assert_eq!(
        log_lines("  first line \r\n\n\tsecond\n   \nthird"),
        vec!["first line".to_string(), "second".to_string(), "third".to_string()]
    );
    assert!(log_lines("").is_empty());
    assert!(log_lines("\n \n").is_empty());
    assert_eq!(trim_text("\u{3000} x y \u{a0}"), "x y");
    assert_eq!(trim_text("   "), "");
    assert_eq!(to_ascii_lowercase("Dev.Ä.B"), "dev.Ä.b");
}

#[test]
fn manifest_check_reports_an_empty_registered_uuid() {
    let mut registry: Registry<u8> = Registry::new();
    registry.add(ActionRegistration { uuid: "".to_string(), controller: Controller::Keypad, factory: 0 });
    let mismatch = check_uuids(&registry, &doc(r#"{"Actions":[]}"#)).unwrap();
    assert!(mismatch.missing.is_empty());
    assert_eq!(mismatch.extra, vec!["".to_string()]);
    assert!(!mismatch.is_empty());
}

#[test]
fn log_location_follows_the_platform() {
    let windows = log_location(LogPlatform::Windows, "dev.p");
    assert_eq!(windows.base, LogBase::AppData);
    assert_eq!(windows.dirs, vec!["Elgato".to_string(), "StreamDeck".to_string(), "logs".to_string()]);
    assert_eq!(windows.file, "dev.p.log");
    let mac = log_location(LogPlatform::MacOs, "dev.p");
    assert_eq!(mac.base, LogBase::Home);
    assert_eq!(mac.dirs, vec!["Library".to_string(), "Logs".to_string(), "ElgatoStreamDeck".to_string()]);
    let other = log_location(LogPlatform::Other, "dev.p");
    assert_eq!(other.base, LogBase::TempDir);
    assert!(other.dirs.is_empty());
}

#[test]
fn settings_events_apply_then_raise_the_changed_hook() {
    let message = parse(r#"{"event":"didReceiveSettings","context":"c","payload":{"settings":{"increment":9}}}"#);
    let event = ActionEvent::from_message(&message).unwrap();
    let plan = handler_plan(&event);
    assert_eq!(plan.len(), 3);
    match &plan[0] {
        HandlerStep::ApplySettings(settings) => {
            assert_eq!(settings.get("increment").and_then(|v| v.as_i64()), Some(9))
        }
        _ => panic!("expected the settings to be applied first"),
    }
    assert!(matches!(plan[1], HandlerStep::Run(ActionHandler::DidReceiveSettings)));
    assert!(matches!(plan[2], HandlerStep::SettingsChanged));

    let key = ActionEvent::from_message(&parse(r#"{"event":"keyDown","context":"c"}"#)).unwrap();
    let plan = handler_plan(&key);
    assert_eq!(plan.len(), 1);
    assert!(matches!(plan[0], HandlerStep::Run(ActionHandler::KeyDown)));
    let pi = ActionEvent::from_message(&parse(r#"{"event":"sendToPlugin","context":"c"}"#)).unwrap();
    assert!(matches!(handler_plan(&pi)[0], HandlerStep::Run(ActionHandler::PropertyInspectorMessage)));
}

#[test]
fn errors_read_as_their_messages() {
    assert_eq!(WireError::ChannelClosed.message(), "command channel is closed");
    assert_eq!(WireError::Registration("bad".to_string()).message(), "bad");
    assert_eq!(WireError::Transport(TransportError::new("gone")).message(), "gone");
    assert_eq!(TransportError::new("x").message(), "x");
    let host = streamdeck_plugin::plugin::error::Error::Protocol(WireError::ChannelClosed);
    assert_eq!(host.message(), "command channel is closed");
    assert_eq!(streamdeck_plugin::plugin::error::Error::Manifest("m".to_string()).message(), "m");
}

#[test]
fn uuids_differ_ignoring_case() {
    let mut registry: Registry<u8> = Registry::new();
    for uuid in ["A.b", "a.B", "c", "C", "d"] {
        registry.add(ActionRegistration { uuid: uuid.to_string(), controller: Controller::Keypad, factory: 0 });
    }
    let uuids = registry.uuids();
    assert_eq!(uuids, vec!["C".to_string(), "a.B".to_string(), "d".to_string()]);
    for i in 0..uuids.len() {
        for j in i + 1..uuids.len() {
            assert_ne!(uuids[i].to_ascii_lowercase(), uuids[j].to_ascii_lowercase());
        }
    }
}
