//! Each value the library reads or writes stands under the name the protocol
//! gives it: read from the member of that name, written under that name.
use vstd::prelude::*;

use crate::json::{member, Json};
use crate::plugin::action::{handler_plan_of, ActionEventView, ActionHandler, HandlerStepView};
use crate::laws::{lemma_member_skip, text_json};
use crate::protocol::commands::{
    image_payload, optional_member, profile_payload, title_payload, trigger_description_json,
    TriggerDescriptionView,
};
use crate::protocol::connection::registration_json;
use crate::protocol::payload::{title_parameters_of, title_parameters_payload_of};
use crate::sample::actions::{dial_feedback_json, indicator_of, inspector_delta_of, label_of};
use crate::sample::contracts::{count_changed_json, counter_settings_of, inspector_command_of, CounterSettingsView};
use crate::text::{decimal_text, u16_text};
use crate::plugin::action::{action_event_of, payload_or_null};
use crate::protocol::connection::{connection_step, ConnectionActionView, ConnectionEvent};
use crate::text::is_blank;
use crate::plugin::dispatch::{lifecycle_event_of, route_of, LifecycleEventView, RouteView};
use crate::plugin::manifest::{manifest_action_of, manifest_uuids_of};
use crate::plugin::registry::ActionRegistration;
use crate::protocol::events::IncomingMessageView;
use crate::protocol::registration::{empty_scan, scan_launch_arguments, LaunchScan};
use crate::protocol::events::{
    application_info_of, color_info_of, device_info_of, device_size_of, incoming_message_of,
    plugin_info_of, target_number, DeviceSize, Target,
};
use crate::protocol::payload::{action_payload_of, dial_rotate_of, touch_tap_of};

verus! {

/// The text a member holds: `Some` of it when the member is text.
pub open spec fn text_of(f: Option<Json>) -> Option<Seq<char>> {
    match f {
        Some(Json::Str(s)) => Some(s),
        _ => None,
    }
}

/// The integer a member holds.
pub open spec fn int_of(f: Option<Json>) -> Option<i64> {
    match f {
        Some(v) => v.i64_value(),
        None => None,
    }
}

/// The integers under `column` and `row` of the object under `coordinates`.
pub open spec fn coordinates_at(p: Json) -> Option<(i64, i64)> {
    match p.field("coordinates"@) {
        Some(c) => match (int_of(c.field("column"@)), int_of(c.field("row"@))) {
            (Some(col), Some(row)) => Some((col, row)),
            _ => None,
        },
        None => None,
    }
}

/// The first two integers of the array under `tapPos`.
pub open spec fn tap_at(p: Json) -> Option<(i64, i64)> {
    match p.field("tapPos"@) {
        Some(Json::Array(items)) => if items.len() >= 2 {
            match (items[0].i64_value(), items[1].i64_value()) {
                (Some(x), Some(y)) => Some((x, y)),
                _ => None,
            }
        } else {
            None
        },
        _ => None,
    }
}

/// A text field of a record read from an object: the member's text when the
/// member is text, empty when there is no such member.
pub open spec fn read_as(f: Option<Json>, value: Seq<char>) -> bool {
    &&& (text_of(f) matches Some(s) ==> value == s)
    &&& (f is None ==> value == Seq::<char>::empty())
}

/// Every handler event other than `didReceiveSettings` plans exactly one step:
/// running the handler of its own kind.
pub proof fn handler_plan_runs_own_handler(e: ActionEventView)
    ensures
        e is WillAppear ==> handler_plan_of(e) == seq![HandlerStepView::Run(ActionHandler::WillAppear)],
        e is WillDisappear ==> handler_plan_of(e) == seq![HandlerStepView::Run(ActionHandler::WillDisappear)],
        e is KeyDown ==> handler_plan_of(e) == seq![HandlerStepView::Run(ActionHandler::KeyDown)],
        e is KeyUp ==> handler_plan_of(e) == seq![HandlerStepView::Run(ActionHandler::KeyUp)],
        e is DialDown ==> handler_plan_of(e) == seq![HandlerStepView::Run(ActionHandler::DialDown)],
        e is DialUp ==> handler_plan_of(e) == seq![HandlerStepView::Run(ActionHandler::DialUp)],
        e is DialRotate ==> handler_plan_of(e) == seq![HandlerStepView::Run(ActionHandler::DialRotate)],
        e is TouchTap ==> handler_plan_of(e) == seq![HandlerStepView::Run(ActionHandler::TouchTap)],
        e is PropertyInspectorMessage ==> handler_plan_of(e) == seq![
            HandlerStepView::Run(ActionHandler::PropertyInspectorMessage),
        ],
        e is PropertyInspectorDidAppear ==> handler_plan_of(e) == seq![
            HandlerStepView::Run(ActionHandler::PropertyInspectorDidAppear),
        ],
        e is PropertyInspectorDidDisappear ==> handler_plan_of(e) == seq![
            HandlerStepView::Run(ActionHandler::PropertyInspectorDidDisappear),
        ],
        e is TitleParametersDidChange ==> handler_plan_of(e) == seq![
            HandlerStepView::Run(ActionHandler::TitleParametersDidChange),
        ],
        e is DidReceiveResources ==> handler_plan_of(e) == seq![
            HandlerStepView::Run(ActionHandler::DidReceiveResources),
        ],
        e matches ActionEventView::DidReceiveSettings(p) ==> handler_plan_of(e) == seq![
            HandlerStepView::ApplySettings(p.settings),
            HandlerStepView::Run(ActionHandler::DidReceiveSettings),
            HandlerStepView::SettingsChanged,
        ],
{
}

/// An action payload's coordinates are the integers under `column` and `row`
/// of its `coordinates` object; its `state` and `userDesiredState` are the
/// integers under those names; its settings are the value under `settings`.
pub proof fn action_payload_fields_by_name(p: Json)
    ensures
        coordinates_at(p) matches Some((col, row)) ==> action_payload_of(p).coordinates == Some(
            crate::protocol::events::Coordinates { column: col as i32, row: row as i32 },
        ),
        int_of(p.field("state"@)) matches Some(n) ==> action_payload_of(p).state == Some(n as i32),
        int_of(p.field("userDesiredState"@)) matches Some(n) ==> action_payload_of(p).user_desired_state
            == Some(n as i32),
        p.field("settings"@) matches Some(s) ==> action_payload_of(p).settings == s,
        p.field("isInMultiAction"@) matches Some(Json::Bool(b)) ==> action_payload_of(
            p,
        ).is_in_multi_action == b,
{
}

/// A dial rotation's ticks are the integer under `ticks` and its pressed flag the
/// boolean under `pressed`; a touch tap's position is the first and second
/// integer of `tapPos`, its hold flag the boolean under `hold`.
pub proof fn dial_and_touch_fields_by_name(p: Json)
    ensures
        int_of(p.field("ticks"@)) matches Some(n) ==> dial_rotate_of(p).ticks == n as i32,
        p.field("pressed"@) matches Some(Json::Bool(b)) ==> dial_rotate_of(p).pressed == b,
        p.field("hold"@) matches Some(Json::Bool(b)) ==> touch_tap_of(p).hold == b,
        tap_at(p) matches Some((x, y)) ==> touch_tap_of(p).tap_x == x as i32 && touch_tap_of(p).tap_y
            == y as i32,
{
}

/// Application info read from an object holds, in each field, the text under
/// that field's name (empty when absent); it reads whenever every such member
/// is text or absent.
pub proof fn application_fields_by_name(v: Json)
    requires
        v is Object,
    ensures
        application_info_of(v) matches Some(a) ==> {
            &&& read_as(v.field("font"@), a.font)
            &&& read_as(v.field("language"@), a.language)
            &&& read_as(v.field("platform"@), a.platform)
            &&& read_as(v.field("platformVersion"@), a.platform_version)
            &&& read_as(v.field("version"@), a.version)
        },
        (forall|k: Seq<char>| #[trigger] v.field(k) is None || text_of(v.field(k)) is Some)
            ==> application_info_of(v) is Some,
{
}

/// Plugin info read from an object: `uuid` and `version` under their names.
pub proof fn plugin_fields_by_name(v: Json)
    requires
        v is Object,
    ensures
        plugin_info_of(v) matches Some(p) ==> read_as(v.field("uuid"@), p.uuid) && read_as(
            v.field("version"@),
            p.version,
        ),
{
}

/// Colour info read from an object: each colour under its own name.
pub proof fn color_fields_by_name(v: Json)
    requires
        v is Object,
    ensures
        color_info_of(v) matches Some(c) ==> {
            &&& read_as(v.field("buttonMouseOverBackgroundColor"@), c.button_mouse_over_background_color)
            &&& read_as(v.field("buttonPressedBackgroundColor"@), c.button_pressed_background_color)
            &&& read_as(v.field("buttonPressedBorderColor"@), c.button_pressed_border_color)
            &&& read_as(v.field("buttonPressedTextColor"@), c.button_pressed_text_color)
            &&& read_as(v.field("highlightColor"@), c.highlight_color)
        },
{
}

/// Device metadata read from an object: `id` and `name` under their names, the
/// size from `size` (its `columns` and `rows`), and the size of a device read
/// from an object is the integers under `columns` and `rows`.
pub proof fn device_fields_by_name(v: Json)
    requires
        v is Object,
    ensures
        device_info_of(v) matches Some(d) ==> read_as(v.field("id"@), d.id) && read_as(
            v.field("name"@),
            d.name,
        ),
        device_info_of(v) matches Some(d) ==> (v.field("size"@) matches Some(s) ==> device_size_of(s)
            == Some(d.size)),
        device_size_of(v) matches Some(size) ==> int_of(v.field("columns"@)) == Some(size.columns as i64)
            && int_of(v.field("rows"@)) == Some(size.rows as i64),
{
    if let Some(Json::Number(n)) = v.field("columns"@) {
        lemma_i32_number(n);
    }
    if let Some(Json::Number(n)) = v.field("rows"@) {
        lemma_i32_number(n);
    }
}

proof fn lemma_i32_number(n: crate::json::JsonNumber)
    ensures
        crate::decode::number_as_i32(n) matches Some(x) ==> crate::json::number_as_i64(n) == Some(
            x as i64,
        ),
{
    match n {
        crate::json::JsonNumber::PosInt(u) => {
            if u <= i32::MAX {
                assert((u as i32) as i64 == u as i64);
            }
        },
        crate::json::JsonNumber::NegInt(i) => {
            if i32::MIN <= i <= i32::MAX {
                assert((i as i32) as i64 == i);
            }
        },
        crate::json::JsonNumber::Float(_) => {},
    }
}

/// An inbound message read from an object: `event`, `action`, `context`,
/// `device` and `id` are the texts under those names, the payload the value
/// under `payload`.
pub proof fn message_fields_by_name(v: Json)
    requires
        v is Object,
    ensures
        incoming_message_of(v) matches Some(m) ==> {
            &&& v.field("event"@) == Some(Json::Str(m.event))
            &&& (text_of(v.field("action"@)) matches Some(s) ==> m.action == Some(s))
            &&& (text_of(v.field("context"@)) matches Some(s) ==> m.context == Some(s))
            &&& (text_of(v.field("device"@)) matches Some(s) ==> m.device == Some(s))
            &&& (text_of(v.field("id"@)) matches Some(s) ==> m.id == Some(s))
            &&& (v.field("payload"@) matches Some(x) ==> (x is Null || m.payload == Some(x)))
        },
{
}

/// The `setImage` payload holds the image under `image`, the target's wire
/// number under `target`, and the state (`null` when none) under `state`; the
/// `setTitle` payload likewise holds the title under `title`.
pub proof fn image_and_title_payload_fields(
    text: Option<Seq<char>>,
    target: Target,
    state: Option<i32>,
)
    ensures
        int_of(image_payload(text, target, state).field("target"@)) == Some(target_number(target) as i64),
        state matches Some(s) ==> int_of(image_payload(text, target, state).field("state"@)) == Some(
            s as i64,
        ),
        state is None ==> image_payload(text, target, state).field("state"@) == Some(Json::Null),
        text matches Some(s) ==> image_payload(text, target, state).field("image"@) == Some(
            Json::Str(s),
        ),
        text is None ==> image_payload(text, target, state).field("image"@) == Some(Json::Null),
        int_of(title_payload(text, target, state).field("target"@)) == Some(target_number(target) as i64),
        state matches Some(s) ==> int_of(title_payload(text, target, state).field("state"@)) == Some(
            s as i64,
        ),
        state is None ==> title_payload(text, target, state).field("state"@) == Some(Json::Null),
        text matches Some(s) ==> title_payload(text, target, state).field("title"@) == Some(
            Json::Str(s),
        ),
        text is None ==> title_payload(text, target, state).field("title"@) == Some(Json::Null),
{
    reveal_strlit("image");
    reveal_strlit("state");
    reveal_strlit("target");
    reveal_strlit("title");
    assert("image"@[0] == 'i' && "state"@[0] == 's' && "target"@[0] == 't' && "title"@[0] == 't');
    assert("target"@.len() == 6 && "title"@.len() == 5 && "state"@.len() == 5);
    reveal_with_fuel(member, 4);
}

/// The `switchToProfile` payload holds the page under `page` and the profile
/// under `profile` (`null` when none).
pub proof fn profile_payload_fields(profile: Option<Seq<char>>, page: Option<i32>)
    ensures
        page matches Some(n) ==> int_of(profile_payload(profile, page).field("page"@)) == Some(n as i64),
        page is None ==> profile_payload(profile, page).field("page"@) == Some(Json::Null),
        profile matches Some(t) ==> profile_payload(profile, page).field("profile"@) == Some(Json::Str(t)),
        profile is None ==> profile_payload(profile, page).field("profile"@) == Some(Json::Null),
{
    reveal_strlit("page");
    reveal_strlit("profile");
    assert("page"@.len() == 4 && "profile"@.len() == 7);
    reveal_with_fuel(member, 3);
}

/// A trigger description is sent with each hint under its own name, and
/// without the hints it does not set.
pub proof fn trigger_description_fields(d: TriggerDescriptionView)
    ensures
        trigger_description_json(d).field("longTouch"@) == text_json(d.long_touch),
        trigger_description_json(d).field("push"@) == text_json(d.push),
        trigger_description_json(d).field("rotate"@) == text_json(d.rotate),
        trigger_description_json(d).field("touch"@) == text_json(d.touch),
{
    reveal_strlit("longTouch");
    reveal_strlit("push");
    reveal_strlit("rotate");
    reveal_strlit("touch");
    assert("longTouch"@.len() == 9 && "push"@.len() == 4 && "rotate"@.len() == 6 && "touch"@.len() == 5);
    assert("push"@[0] == 'p' && "touch"@[0] == 't');
    let a = optional_member("longTouch"@, d.long_touch);
    let b = optional_member("push"@, d.push);
    let c = optional_member("rotate"@, d.rotate);
    let e = optional_member("touch"@, d.touch);
    let empty = Seq::<(Seq<char>, Json)>::empty();
    assert(member(empty, "longTouch"@) is None);
    assert(trigger_description_json(d) == Json::Object(a + b + c + e));
    assert(a + b + c + e =~= a + (b + (c + e)));
    assert(a + b + c + e =~= (a + b) + (c + e));
    assert(a + b + c + e =~= (a + b + c) + e);
    // longTouch
    lemma_member_skip(b + (c + e), "longTouch"@, empty);
    assert(b + (c + e) + empty =~= b + (c + e));
    if d.long_touch is None {
        assert(a + (b + (c + e)) =~= b + (c + e));
    }
    // push
    lemma_member_skip(a, "push"@, b + (c + e));
    lemma_member_skip(c + e, "push"@, empty);
    assert(c + e + empty =~= c + e);
    if d.push is None {
        assert(b + (c + e) =~= c + e);
    }
    // rotate
    lemma_member_skip(a + b, "rotate"@, c + e);
    lemma_member_skip(e, "rotate"@, empty);
    assert(e + empty =~= e);
    if d.rotate is None {
        assert(c + e =~= e);
    }
    // touch
    lemma_member_skip(a + b + c, "touch"@, e);
    if d.touch is None {
        assert(e =~= empty);
    }
}

/// The registration message holds the registration event under `event` and the
/// plugin UUID under `uuid`.
pub proof fn registration_message_fields(register_event: Seq<char>, plugin_uuid: Seq<char>)
    ensures
        registration_json(register_event, plugin_uuid).field("event"@) == Some(Json::Str(register_event)),
        registration_json(register_event, plugin_uuid).field("uuid"@) == Some(Json::Str(plugin_uuid)),
{
    reveal_strlit("event");
    reveal_strlit("uuid");
    assert("event"@.len() == 5 && "uuid"@.len() == 4);
    reveal_with_fuel(member, 3);
}

/// Title parameters read from an object: each under its own name; the title of
/// a title-change payload is the text under `title`, its parameters the object
/// under `titleParameters`.
pub proof fn title_parameter_fields_by_name(v: Json, p: Json)
    requires
        v is Object,
    ensures
        title_parameters_of(v) matches Some(t) ==> {
            &&& read_as(v.field("fontFamily"@), t.font_family)
            &&& read_as(v.field("fontStyle"@), t.font_style)
            &&& read_as(v.field("titleAlignment"@), t.title_alignment)
            &&& read_as(v.field("titleColor"@), t.title_color)
            &&& (v.field("fontUnderline"@) matches Some(Json::Bool(b)) ==> t.font_underline == b)
            &&& (v.field("showTitle"@) matches Some(Json::Bool(b)) ==> t.show_title == b)
            &&& (v.field("fontSize"@) matches Some(Json::Number(n)) ==> t.font_size == n)
        },
        text_of(p.field("title"@)) matches Some(s) ==> title_parameters_payload_of(p).title == s,
        p.field("titleParameters"@) matches Some(x) ==> (title_parameters_of(x) matches Some(t)
            ==> title_parameters_payload_of(p).title_parameters == t),
{
}

/// The sample's messages: settings read `label` and `increment` under their
/// names, a count message is sent with the count under `count` and its type
/// under `type`, a request's type is the text under `type`, and the dial's
/// feedback holds the label under `title`, the count's text under `value` and
/// the count, kept within 0 to 100, under `indicator`.
pub proof fn sample_message_fields(v: Json, message_type: Seq<char>, count: i32, s: CounterSettingsView)
    requires
        v is Object,
    ensures
        counter_settings_of(v) matches Some(c) ==> (text_of(v.field("label"@)) matches Some(l) ==> c.label == l),
        counter_settings_of(v) matches Some(c) ==> (int_of(v.field("increment"@)) == Some(c.increment as i64)
            || (v.field("increment"@) is None && c.increment == 1)),
        inspector_command_of(v) matches Some(k) ==> read_as(v.field("type"@), k),
        int_of(count_changed_json(message_type, count).field("count"@)) == Some(count as i64),
        count_changed_json(message_type, count).field("type"@) == Some(Json::Str(message_type)),
        dial_feedback_json(s, count).field("title"@) == Some(Json::Str(label_of(s))),
        dial_feedback_json(s, count).field("value"@) == Some(Json::Str(decimal_text(count as int))),
        int_of(dial_feedback_json(s, count).field("indicator"@)) matches Some(i) && 0 <= i <= 100
            && (0 <= count <= 100 ==> i == count),
{
    reveal_strlit("count");
    reveal_strlit("type");
    reveal_strlit("indicator");
    reveal_strlit("title");
    reveal_strlit("value");
    assert("count"@.len() == 5 && "type"@.len() == 4);
    assert("indicator"@.len() == 9 && "title"@.len() == 5 && "value"@.len() == 5);
    assert("title"@[0] == 't' && "value"@[0] == 'v');
    reveal_with_fuel(member, 4);
    if let Some(Json::Number(n)) = v.field("increment"@) {
        lemma_i32_number(n);
    }
}

/// Plugin-wide events carry what their payload holds under the protocol's
/// names: the application under `application`, the URL under `url`, the global
/// settings under `settings`, the secrets under `secrets`; device events carry
/// the message's device and device description.
pub proof fn lifecycle_fields_by_name(m: IncomingMessageView)
    ensures
        m.event == "applicationDidLaunch"@ ==> (text_of(payload_or_null(m).field("application"@)) matches Some(
            a,
        ) ==> lifecycle_event_of(m) == Some(Some(LifecycleEventView::ApplicationDidLaunch(a)))),
        m.event == "applicationDidTerminate"@ ==> (text_of(payload_or_null(m).field("application"@)) matches Some(
            a,
        ) ==> lifecycle_event_of(m) == Some(Some(LifecycleEventView::ApplicationDidTerminate(a)))),
        m.event == "didReceiveDeepLink"@ ==> (text_of(payload_or_null(m).field("url"@)) matches Some(u)
            ==> lifecycle_event_of(m) == Some(Some(LifecycleEventView::DidReceiveDeepLink(u)))),
        m.event == "didReceiveGlobalSettings"@ ==> (payload_or_null(m).field("settings"@) matches Some(x)
            ==> lifecycle_event_of(m) == Some(Some(LifecycleEventView::DidReceiveGlobalSettings(x)))),
        m.event == "didReceiveSecrets"@ ==> (payload_or_null(m).field("secrets"@) matches Some(x)
            ==> lifecycle_event_of(m) == Some(Some(LifecycleEventView::DidReceiveSecrets(x)))),
        m.event == "systemDidWakeUp"@ ==> lifecycle_event_of(m) == Some(Some(LifecycleEventView::SystemDidWakeUp)),
        m.event == "deviceDidConnect"@ ==> (m.device matches Some(d) ==> (m.device_info matches Some(i)
            ==> lifecycle_event_of(m) == Some(Some(LifecycleEventView::DeviceDidConnect(d, i))))),
        m.event == "deviceDidChange"@ ==> (m.device matches Some(d) ==> (m.device_info matches Some(i)
            ==> lifecycle_event_of(m) == Some(Some(LifecycleEventView::DeviceDidChange(d, i))))),
        m.event == "deviceDidDisconnect"@ ==> (m.device matches Some(d) ==> lifecycle_event_of(m) == Some(
            Some(LifecycleEventView::DeviceDidDisconnect(d)),
        )),
{
    reveal_strlit("applicationDidLaunch");
    reveal_strlit("applicationDidTerminate");
    reveal_strlit("deviceDidConnect");
    reveal_strlit("deviceDidDisconnect");
    reveal_strlit("deviceDidChange");
    reveal_strlit("systemDidWakeUp");
    reveal_strlit("didReceiveDeepLink");
    reveal_strlit("didReceiveGlobalSettings");
    reveal_strlit("didReceiveSecrets");
    assert("applicationDidLaunch"@.len() == 20 && "applicationDidTerminate"@.len() == 23);
    assert("deviceDidConnect"@.len() == 16 && "deviceDidDisconnect"@.len() == 19);
    assert("deviceDidChange"@.len() == 15 && "systemDidWakeUp"@.len() == 15);
    assert("deviceDidChange"@[0] == 'd' && "systemDidWakeUp"@[0] == 's');
    assert("didReceiveDeepLink"@.len() == 18 && "didReceiveGlobalSettings"@.len() == 24);
    assert("didReceiveSecrets"@.len() == 17);
}

/// An instance built for a `willAppear` lives at the message's context, under
/// the message's action UUID and device (empty when none), seeded from the
/// message's payload.
pub proof fn appearance_fields<F>(
    registrations: Map<Seq<char>, ActionRegistration<F>>,
    live: Set<Seq<char>>,
    m: IncomingMessageView,
)
    ensures
        route_of(registrations, live, m) matches RouteView::Appear(r, a) ==> {
            &&& m.context == Some(a.context)
            &&& m.action == Some(a.action_uuid)
            &&& (m.device matches Some(d) ==> a.device == d)
            &&& (m.device is None ==> a.device == Seq::<char>::empty())
            &&& a.payload == action_payload_of(payload_or_null(m))
        },
{
}

/// Launch arguments that give each key once, in the usual order, are read as
/// the value after each key.
pub proof fn launch_arguments_by_key(port: Seq<char>, uuid: Seq<char>, event: Seq<char>, info: Seq<char>)
    requires
        u16_text(port) is Some,
    ensures
        scan_launch_arguments(
            seq!["-port"@, port, "-pluginUUID"@, uuid, "-registerEvent"@, event, "-info"@, info],
            0,
            empty_scan(),
        ) == Some(LaunchScan { port: u16_text(port)->0, plugin_uuid: uuid, register_event: event, info_json: info }),
{
    reveal_strlit("-port");
    reveal_strlit("-pluginUUID");
    reveal_strlit("-registerEvent");
    reveal_strlit("-info");
    assert("-port"@.len() == 5 && "-pluginUUID"@.len() == 11 && "-registerEvent"@.len() == 14 && "-info"@.len() == 5);
    assert("-port"@[1] == 'p' && "-info"@[1] == 'i');
    let args = seq!["-port"@, port, "-pluginUUID"@, uuid, "-registerEvent"@, event, "-info"@, info];
    assert(args[0] == "-port"@ && args[2] == "-pluginUUID"@ && args[4] == "-registerEvent"@ && args[6] == "-info"@);
    assert(args[1] == port && args[3] == uuid && args[5] == event && args[7] == info);
    reveal_with_fuel(scan_launch_arguments, 6);
}

/// A manifest action's UUID is the text under `UUID`; a manifest object's UUIDs
/// are those of the actions under `Actions`, in order.
pub proof fn manifest_fields_by_name(v: Json)
    requires
        v is Object,
    ensures
        manifest_action_of(v) matches Some(u) ==> read_as(v.field("UUID"@), u),
        v.field("Actions"@) matches Some(Json::Array(items)) ==> (manifest_uuids_of(v) matches Some(us) ==> (
        us.len() == items.len() && forall|i: int|
            0 <= i < items.len() ==> manifest_action_of(#[trigger] items[i]) == Some(us[i]))),
        v.field("Actions"@) is None ==> manifest_uuids_of(v) == Some(Seq::<Seq<char>>::empty()),
{
}

/// Each action event name gives the event of that kind, carrying the message's
/// payload read as that kind's payload.
pub proof fn action_events_by_name(m: IncomingMessageView)
    ensures
        m.event == "willAppear"@ ==> action_event_of(m) == Some(ActionEventView::WillAppear(action_payload_of(payload_or_null(m)))),
        m.event == "willDisappear"@ ==> action_event_of(m) == Some(ActionEventView::WillDisappear(action_payload_of(payload_or_null(m)))),
        m.event == "keyDown"@ ==> action_event_of(m) == Some(ActionEventView::KeyDown(action_payload_of(payload_or_null(m)))),
        m.event == "keyUp"@ ==> action_event_of(m) == Some(ActionEventView::KeyUp(action_payload_of(payload_or_null(m)))),
        m.event == "dialDown"@ ==> action_event_of(m) == Some(ActionEventView::DialDown(action_payload_of(payload_or_null(m)))),
        m.event == "dialUp"@ ==> action_event_of(m) == Some(ActionEventView::DialUp(action_payload_of(payload_or_null(m)))),
        m.event == "dialRotate"@ ==> action_event_of(m) matches Some(ActionEventView::DialRotate(_)),
        m.event == "touchTap"@ ==> action_event_of(m) matches Some(ActionEventView::TouchTap(_)),
        m.event == "didReceiveSettings"@ ==> action_event_of(m) == Some(ActionEventView::DidReceiveSettings(action_payload_of(payload_or_null(m)))),
        m.event == "sendToPlugin"@ ==> action_event_of(m) == Some(ActionEventView::PropertyInspectorMessage(payload_or_null(m))),
        m.event == "propertyInspectorDidAppear"@ ==> action_event_of(m) == Some(ActionEventView::PropertyInspectorDidAppear),
        m.event == "propertyInspectorDidDisappear"@ ==> action_event_of(m) == Some(ActionEventView::PropertyInspectorDidDisappear),
        m.event == "titleParametersDidChange"@ ==> action_event_of(m) matches Some(ActionEventView::TitleParametersDidChange(_)),
        m.event == "didReceiveResources"@ ==> action_event_of(m) == Some(ActionEventView::DidReceiveResources(action_payload_of(payload_or_null(m)))),
{
    reveal_strlit("willAppear");
    reveal_strlit("willDisappear");
    reveal_strlit("keyDown");
    reveal_strlit("keyUp");
    reveal_strlit("dialDown");
    reveal_strlit("dialUp");
    reveal_strlit("dialRotate");
    reveal_strlit("touchTap");
    reveal_strlit("didReceiveSettings");
    reveal_strlit("sendToPlugin");
    reveal_strlit("propertyInspectorDidAppear");
    reveal_strlit("propertyInspectorDidDisappear");
    reveal_strlit("titleParametersDidChange");
    reveal_strlit("didReceiveResources");
    assert("willAppear"@.len() == 10);
    assert("willDisappear"@.len() == 13);
    assert("keyDown"@.len() == 7);
    assert("keyUp"@.len() == 5);
    assert("dialDown"@.len() == 8);
    assert("dialUp"@.len() == 6);
    assert("dialRotate"@.len() == 10);
    assert("touchTap"@.len() == 8);
    assert("didReceiveSettings"@.len() == 18);
    assert("sendToPlugin"@.len() == 12);
    assert("propertyInspectorDidAppear"@.len() == 26);
    assert("propertyInspectorDidDisappear"@.len() == 29);
    assert("titleParametersDidChange"@.len() == 24);
    assert("didReceiveResources"@.len() == 19);
    assert("willAppear"@[0] == 'w' && "dialRotate"@[0] == 'd');
    assert("dialDown"@[0] == 'd' && "touchTap"@[0] == 't');
}

/// The connection loop stops on cancellation and on a closed socket, sends what
/// the outbound queue yields, and hands the plugin each frame that is a message
/// with an event name that is not blank.
pub proof fn connection_steps(m: IncomingMessageView, text: Seq<char>)
    ensures
        connection_step(ConnectionEvent::Cancelled) == ConnectionActionView::Stop,
        connection_step(ConnectionEvent::Closed) == ConnectionActionView::Stop,
        connection_step(ConnectionEvent::Frame(None)) == ConnectionActionView::Unreadable,
        connection_step(ConnectionEvent::Outbound(None)) == ConnectionActionView::Skip,
        forall|t: String| t@ == text ==> #[trigger] connection_step(ConnectionEvent::Outbound(Some(t)))
            == ConnectionActionView::Send(text),
        forall|d: crate::json::JsonValue|
            #[trigger] incoming_message_of(d@) == Some(m) ==> connection_step(ConnectionEvent::Frame(Some(d)))
                == if is_blank(m.event) {
                ConnectionActionView::Skip
            } else {
                ConnectionActionView::Deliver(m)
            },
{
}

/// An `add` request adds the configured increment, or 1 when it is below 1;
/// any request whose type is neither `add` nor `reset` changes nothing.
pub proof fn add_request_adds_the_step(payload: Json, settings: CounterSettingsView, count: i32)
    ensures
        inspector_command_of(payload) == Some("add"@) ==> inspector_delta_of(payload, settings, count)
            == Some(if settings.increment >= 1 { settings.increment } else { 1i32 }),
        inspector_command_of(payload) matches Some(k) ==> (k != "add"@ && k != "reset"@
            ==> inspector_delta_of(payload, settings, count) is None),
{
    reveal_strlit("add");
    reveal_strlit("reset");
    assert("add"@.len() == 3 && "reset"@.len() == 5);
}

} // verus!
