use streamdeck_plugin::protocol::events::DeviceSize;
use serde_json::Value;
use streamdeck_plugin::json::{JsonNumber, JsonValue};
use streamdeck_plugin::protocol::commands::{CommandNames, CommandSender, OutgoingCommand, TriggerDescription};
use streamdeck_plugin::protocol::connection::{next_action, ConnectionAction, ConnectionEvent, StreamDeckConnection};
use streamdeck_plugin::protocol::encoding::{base64_encode, data_url, mime_for_extension};
use streamdeck_plugin::protocol::error::{Error, TransportError};
use streamdeck_plugin::protocol::events::{Controller, DeviceType, EventNames, IncomingMessage, Target};
use streamdeck_plugin::protocol::payload::{parse_action_payload, parse_dial_rotate, parse_touch_tap};
use streamdeck_plugin::protocol::registration::RegistrationArguments;
use streamdeck_plugin::text::{i32_to_text, parse_u16};

fn to_model(v: &Value) -> JsonValue {
    match v {
        Value::Null => JsonValue::Null,
        Value::Bool(b) => JsonValue::Bool(*b),
        Value::Number(n) => JsonValue::Number(if let Some(u) = n.as_u64() {
            JsonNumber::PosInt(u)
        } else if let Some(i) = n.as_i64() {
            JsonNumber::NegInt(i)
        } else {
            JsonNumber::Float(n.as_f64().unwrap().to_bits())
        }),
        Value::String(s) => JsonValue::String(s.clone()),
        Value::Array(items) => JsonValue::Array(items.iter().map(to_model).collect()),
        Value::Object(members) => JsonValue::Object(
            members.iter().map(|(k, v)| (k.clone(), to_model(v))).collect(),
        ),
    }
}

fn doc(text: &str) -> JsonValue {
    to_model(&serde_json::from_str::<Value>(text).unwrap())
}

fn text_of(v: &JsonValue) -> String {
    match v {
        JsonValue::Null => "null".to_string(),
        JsonValue::Bool(b) => b.to_string(),
        JsonValue::Number(JsonNumber::PosInt(u)) => u.to_string(),
        JsonValue::Number(JsonNumber::NegInt(i)) => i.to_string(),
        JsonValue::Number(JsonNumber::Float(bits)) => f64::from_bits(*bits).to_string(),
        JsonValue::String(s) => serde_json::to_string(s).unwrap(),
        JsonValue::Array(items) => {
            format!("[{}]", items.iter().map(text_of).collect::<Vec<_>>().join(","))
        }
        JsonValue::Object(members) => format!(
            "{{{}}}",
            members
                .iter()
                .map(|(k, v)| format!("{}:{}", serde_json::to_string(k).unwrap(), text_of(v)))
                .collect::<Vec<_>>()
                .join(",")
        ),
    }
}

fn args(items: &[&str]) -> Vec<String> {
    items.iter().map(|s| s.to_string()).collect()
}

fn message(text: &str) -> IncomingMessage {
    IncomingMessage::from_json(&doc(text)).unwrap()
}

#[test]
fn incoming_key_down_round_trips_core_fields() {
    let json = r#"{
        "action": "dev.test.counter",
        "context": "ctx-1",
        "device": "dev-1",
        "event": "keyDown",
        "payload": {
            "controller": "Keypad",
            "coordinates": { "column": 2, "row": 1 },
            "isInMultiAction": false,
            "settings": { "increment": 3 }
        }
    }"#;

    let message = message(json);
    assert_eq!(message.event, EventNames::KEY_DOWN);
    assert_eq!(message.context.as_deref(), Some("ctx-1"));
    let payload = parse_action_payload(message.payload.as_ref().unwrap());
    assert_eq!(payload.controller, Controller::Keypad);
    assert_eq!(payload.coordinates.unwrap().column, 2);
    assert_eq!(payload.settings.get("increment").and_then(|v| v.as_i64()), Some(3));
}

#[test]
fn incoming_device_did_connect_reads_device_info() {
    let json = r#"{
        "event": "deviceDidConnect",
        "device": "abc",
        "deviceInfo": {
            "name": "Stream Deck XL",
            "size": { "columns": 8, "rows": 4 },
            "type": 2
        }
    }"#;
    let message = message(json);
    assert_eq!(message.event, EventNames::DEVICE_DID_CONNECT);
    assert_eq!(message.device.as_deref(), Some("abc"));
    let info = message.device_info.unwrap();
    assert_eq!(info.device_type, Some(DeviceType::StreamDeckXl));
    assert_eq!(info.size.columns, 8);
}

#[test]
fn incoming_dial_rotate_and_deep_link_parse() {
    let rotate = message(
        r#"{
            "event": "dialRotate",
            "action": "dev.test.dial",
            "context": "c",
            "device": "d",
            "payload": { "controller": "Encoder", "ticks": -2, "pressed": true, "settings": {} }
        }"#,
    );
    let payload = parse_dial_rotate(rotate.payload.as_ref().unwrap());
    assert_eq!(payload.ticks, -2);
    assert!(payload.pressed);
    assert_eq!(payload.action.controller, Controller::Encoder);

    let deep_link =
        message(r#"{ "event": "didReceiveDeepLink", "payload": { "url": "hello/world" } }"#);
    assert_eq!(
        deep_link.payload.as_ref().unwrap().get("url").and_then(|v| v.as_str()),
        Some("hello/world")
    );
}

#[test]
fn registration_info_deserializes() {
    let parsed = RegistrationArguments::parse(&args(&[
        "-port",
        "28196",
        "-pluginUUID",
        "ABC123",
        "-registerEvent",
        "registerPlugin",
        "-info",
        r#"{"plugin":{"uuid":"dev.example","version":"1.0.0"},"application":{"platform":"mac"},"devices":[]}"#,
    ]))
    .unwrap();
    let document = doc(&parsed.info_json);
    let args = parsed.with_info_document(Some(&document));
    assert_eq!(args.port, 28196);
    assert_eq!(args.plugin_uuid, "ABC123");
    assert_eq!(args.register_event, "registerPlugin");
    assert_eq!(args.info.application.platform, "mac");
    assert_eq!(args.info.plugin.uuid, "dev.example");
}

#[test]
fn registration_parse_skips_program_name() {
    let args = RegistrationArguments::parse(&args(&[
        r"C:\Plugins\counter.exe",
        "-port",
        "28196",
        "-pluginUUID",
        "ABC123",
        "-registerEvent",
        "registerPlugin",
    ]))
    .unwrap();
    assert_eq!(args.port, 28196);
    assert_eq!(args.plugin_uuid, "ABC123");
}

#[test]
fn command_serialization_uses_event_property() {
    let command = OutgoingCommand::new(CommandNames::SET_TITLE)
        .with_context("c")
        .with_payload(JsonValue::Object(vec![("title".to_string(), JsonValue::String("Hi".to_string()))]));
    let json = text_of(&command.to_json()).replace(' ', "");
    assert!(json.contains(r#""event":"setTitle""#));
    assert!(json.contains(r#""title":"Hi""#));
}

#[test]
fn registers_then_dispatches_inbound_events() {
    let args = RegistrationArguments::parse(&args(&[
        "-port",
        "12345",
        "-pluginUUID",
        "uuid-1",
        "-registerEvent",
        "registerPlugin",
        "-info",
        "{}",
    ]))
    .unwrap();
    let connection = StreamDeckConnection::new(args);
    assert_eq!(connection.socket_url(), "ws://127.0.0.1:12345");
    let register = text_of(&connection.registration_message());
    assert!(register.contains("registerPlugin"));
    assert!(register.contains("uuid-1"));

    let mut received = Vec::new();
    let frames = vec![
        ConnectionEvent::Frame(Some(doc(r#"{"event":"systemDidWakeUp"}"#))),
        ConnectionEvent::Frame(Some(doc(r#"{"event":"didReceiveDeepLink","payload":{"url":"ping"}}"#))),
        ConnectionEvent::Closed,
    ];
    for event in frames {
        match next_action(event) {
            ConnectionAction::Deliver(message) => received.push(message.event),
            ConnectionAction::Stop => break,
            _ => {}
        }
    }
    assert_eq!(received, vec!["systemDidWakeUp".to_string(), "didReceiveDeepLink".to_string()]);
}

#[test]
fn registration_message_is_event_then_uuid() {
    let args = RegistrationArguments::parse(&args(&[
        "-port", "1", "-pluginUUID", "u", "-registerEvent", "registerPlugin",
    ]))
    .unwrap();
    let connection = StreamDeckConnection::new(args);
    assert_eq!(text_of(&connection.registration_message()), r#"{"event":"registerPlugin","uuid":"u"}"#);
    assert_eq!(connection.plugin_uuid(), "u");
    assert_eq!(connection.sender().plugin_uuid(), "u");
}

#[test]
fn connection_loop_decisions() {
    assert!(matches!(next_action(ConnectionEvent::Cancelled), ConnectionAction::Stop));
    assert!(matches!(next_action(ConnectionEvent::Closed), ConnectionAction::Stop));
    assert!(matches!(next_action(ConnectionEvent::Frame(None)), ConnectionAction::Unreadable));
    assert!(matches!(
        next_action(ConnectionEvent::Frame(Some(doc(r#"{"context":"x"}"#)))),
        ConnectionAction::Unreadable
    ));
    assert!(matches!(
        next_action(ConnectionEvent::Frame(Some(doc(r#"{"event":"  "}"#)))),
        ConnectionAction::Skip
    ));
    assert!(matches!(next_action(ConnectionEvent::Outbound(None)), ConnectionAction::Skip));
    match next_action(ConnectionEvent::Outbound(Some("{}".to_string()))) {
        ConnectionAction::Send(text) => assert_eq!(text, "{}"),
        _ => panic!("expected a send"),
    }
}

#[test]
fn registration_errors_name_the_missing_argument() {
    let cases: Vec<(Vec<String>, &str)> = vec![
        (args(&["-pluginUUID", "u", "-registerEvent", "r"]), "Stream Deck did not provide a valid -port argument."),
        (args(&["-port", "0", "-pluginUUID", "u", "-registerEvent", "r"]), "Stream Deck did not provide a valid -port argument."),
        (args(&["-port", "abc", "-pluginUUID", "u", "-registerEvent", "r"]), "Stream Deck did not provide a valid -port argument."),
        (args(&["-port", "70000", "-pluginUUID", "u", "-registerEvent", "r"]), "Stream Deck did not provide a valid -port argument."),
        (args(&["-port", "5", "-registerEvent", "r"]), "Stream Deck did not provide a -pluginUUID argument."),
        (args(&["-port", "5", "-pluginUUID", " ", "-registerEvent", "r"]), "Stream Deck did not provide a -pluginUUID argument."),
        (args(&["-port", "5", "-pluginUUID", "u"]), "Stream Deck did not provide a -registerEvent argument."),
    ];
    for (input, expected) in cases {
        match RegistrationArguments::parse(&input) {
            Err(Error::Registration(message)) => assert_eq!(message, expected),
            _ => panic!("expected a registration error for {input:?}"),
        }
    }
}

#[test]
fn registration_last_value_wins_and_blank_info_keeps_default() {
    let parsed = RegistrationArguments::parse(&args(&[
        "-port", "1", "-port", "2", "-pluginUUID", "a", "-registerEvent", "r", "-info", "  ", "-unknown", "x",
    ]))
    .unwrap();
    assert_eq!(parsed.port, 2);
    let document = doc(r#"{"application":{"platform":"windows"}}"#);
    let args = parsed.with_info_document(Some(&document));
    assert_eq!(args.info.application.platform, "");
    assert!(args.info.devices.is_empty());
}

#[test]
fn port_text_round_trips() {
    for port in [1u16, 9, 10, 28196, 65535] {
        let text = i32_to_text(port as i32);
        assert_eq!(text, port.to_string());
        assert_eq!(parse_u16(&text), Some(port));
    }
    assert_eq!(parse_u16("+7"), Some(7));
    assert_eq!(parse_u16("65536"), None);
    assert_eq!(parse_u16(""), None);
    assert_eq!(parse_u16("-1"), None);
    assert_eq!(i32_to_text(-45), "-45");
    assert_eq!(i32_to_text(i32::MIN), "-2147483648");
}

#[test]
fn device_type_numbers_round_trip() {
    for n in 0u32..14 {
        let d = DeviceType::from_u32(n).unwrap();
        assert_eq!(d.to_u32(), n);
    }
    assert_eq!(DeviceType::from_u32(14), None);
    assert_eq!(DeviceType::from_u32(2), Some(DeviceType::StreamDeckXl));
}

#[test]
fn controller_and_target_round_trip() {
    for c in [Controller::Keypad, Controller::Encoder, Controller::Neo] {
        assert_eq!(Controller::from_protocol_str(c.as_protocol_str()), c);
    }
    assert_eq!(Controller::from_protocol_str("Unknown"), Controller::Keypad);
    assert_eq!(Controller::Encoder.as_protocol_str(), "Encoder");
    for t in [Target::HardwareAndSoftware, Target::Hardware, Target::Software] {
        assert_eq!(Target::from_u8(t.to_u8()), t);
    }
    assert_eq!(Target::from_u8(9), Target::HardwareAndSoftware);
    assert_eq!(Target::Software.to_u8(), 2);
}

#[test]
fn base64_matches_known_values() {
    assert_eq!(base64_encode(b""), "");
    assert_eq!(base64_encode(b"f"), "Zg==");
    assert_eq!(base64_encode(b"fo"), "Zm8=");
    assert_eq!(base64_encode(b"foo"), "Zm9v");
    assert_eq!(base64_encode(b"foobar"), "Zm9vYmFy");
    assert_eq!(base64_encode(&[0xff, 0xfe, 0x00]), "//4A");
    for n in 0..12usize {
        let bytes: Vec<u8> = (0..n as u8).collect();
        assert_eq!(base64_encode(&bytes).len(), 4 * ((n + 2) / 3));
    }
}

#[test]
fn image_urls_follow_the_extension() {
    assert_eq!(mime_for_extension(Some("JPG")), "image/jpeg");
    assert_eq!(mime_for_extension(Some("jpeg")), "image/jpeg");
    assert_eq!(mime_for_extension(Some("Gif")), "image/gif");
    assert_eq!(mime_for_extension(Some("svg")), "image/svg+xml");
    assert_eq!(mime_for_extension(Some("bmp")), "image/png");
    assert_eq!(mime_for_extension(None), "image/png");
    assert_eq!(data_url("image/png", b"foo"), "data:image/png;base64,Zm9v");

    let sender = CommandSender::new("plugin");
    let command = sender.set_image_from_file("ctx", Some("gif"), b"fo", Target::Hardware, Some(1));
    assert_eq!(
        text_of(&command.to_json()),
        r#"{"event":"setImage","context":"ctx","payload":{"image":"data:image/gif;base64,Zm8=","state":1,"target":1}}"#
    );
}

#[test]
fn sender_commands_have_protocol_shape() {
    let sender = CommandSender::new("plugin");
    assert_eq!(
        text_of(&sender.set_title("ctx", Some("Hi"), Target::HardwareAndSoftware, None).to_json()),
        r#"{"event":"setTitle","context":"ctx","payload":{"state":null,"target":0,"title":"Hi"}}"#
    );
    assert_eq!(
        text_of(&sender.set_state("ctx", 1).to_json()),
        r#"{"event":"setState","context":"ctx","payload":{"state":1}}"#
    );
    assert_eq!(
        text_of(&sender.get_global_settings(Some("req".to_string())).to_json()),
        r#"{"event":"getGlobalSettings","context":"plugin","id":"req"}"#
    );
    assert_eq!(
        text_of(&sender.show_ok("ctx").to_json()),
        r#"{"event":"showOk","context":"ctx"}"#
    );
    assert_eq!(
        text_of(&sender.open_url("https://x").to_json()),
        r#"{"event":"openUrl","payload":{"url":"https://x"}}"#
    );
    assert_eq!(
        text_of(&sender.switch_to_profile("dev", None, Some(2)).to_json()),
        r#"{"event":"switchToProfile","context":"plugin","device":"dev","payload":{"page":2,"profile":null}}"#
    );
    let description = TriggerDescription {
        push: Some("Push".to_string()),
        rotate: None,
        touch: None,
        long_touch: None,
    };
    assert_eq!(
        text_of(&sender.set_trigger_description("ctx", &description).to_json()),
        r#"{"event":"setTriggerDescription","context":"ctx","payload":{"push":"Push"}}"#
    );
    assert_eq!(
        text_of(&sender.set_resources("ctx", &vec![("a".to_string(), "1".to_string()), ("b".to_string(), "2".to_string())]).to_json()),
        r#"{"event":"setResources","context":"ctx","payload":{"a":"1","b":"2"}}"#
    );
}

#[test]
fn touch_tap_reads_position_and_hold() {
    let payload = parse_touch_tap(&doc(r#"{"controller":"Encoder","tapPos":[10,20],"hold":true,"settings":{}}"#));
    assert_eq!(payload.tap_x, 10);
    assert_eq!(payload.tap_y, 20);
    assert!(payload.hold);
    assert_eq!(payload.action.controller, Controller::Encoder);
}

#[test]
fn transport_error_keeps_message() {
    assert_eq!(TransportError::new("gone").0, "gone");
}

#[test]
fn device_size_requires_both_fields() {
    assert!(DeviceSize::from_json(&doc(r#"{"columns":8}"#)).is_none());
    assert!(DeviceSize::from_json(&doc(r#"[8]"#)).is_none());
    let size = DeviceSize::from_json(&doc(r#"[8,4]"#)).unwrap();
    assert_eq!((size.columns, size.rows), (8, 4));
    assert!(IncomingMessage::from_json(&doc(
        r#"{"event":"deviceDidConnect","device":"d","deviceInfo":{"size":{"rows":2}}}"#
    ))
    .is_none());

    let parsed = RegistrationArguments::parse(&args(&[
        "-port", "1", "-pluginUUID", "u", "-registerEvent", "r", "-info",
        r#"{"devices":[{"size":{"columns":8}}]}"#,
    ]))
    .unwrap();
    let document = doc(&parsed.info_json);
    let args = parsed.with_info_document(Some(&document));
    assert!(args.info.devices.is_empty());
}

#[test]
fn resources_read_as_a_sorted_map() {
    let payload = JsonValue::Object(vec![(
        "resources".to_string(),
        JsonValue::Object(vec![
            ("b".to_string(), JsonValue::String("2".to_string())),
            ("a".to_string(), JsonValue::String("1".to_string())),
            ("b".to_string(), JsonValue::String("3".to_string())),
            ("c".to_string(), JsonValue::Number(JsonNumber::PosInt(5))),
        ]),
    )]);
    let parsed = parse_action_payload(&payload);
    assert_eq!(
        parsed.resources,
        vec![
            ("a".to_string(), "1".to_string()),
            ("b".to_string(), "2".to_string()),
            ("c".to_string(), "".to_string()),
        ]
    );
}
