//! Outgoing command names, the command envelope, and the commands a plugin sends.
use vstd::prelude::*;

use crate::json::{lemma_member_models, member_models, Json, JsonNumber, JsonValue};
use crate::protocol::encoding::{data_url, data_url_text, image_mime, mime_for_extension, opt_str_view};
use crate::protocol::events::{opt_json, opt_str, target_number, Target};

verus! {

/// Outgoing WebSocket command names defined by the Stream Deck plugin protocol.
pub struct CommandNames;

impl CommandNames {
    pub const GET_GLOBAL_SETTINGS: &'static str = "getGlobalSettings";
    pub const GET_RESOURCES: &'static str = "getResources";
    pub const GET_SECRETS: &'static str = "getSecrets";
    pub const GET_SETTINGS: &'static str = "getSettings";
    pub const LOG_MESSAGE: &'static str = "logMessage";
    pub const OPEN_URL: &'static str = "openUrl";
    pub const SEND_TO_PROPERTY_INSPECTOR: &'static str = "sendToPropertyInspector";
    pub const SET_FEEDBACK: &'static str = "setFeedback";
    pub const SET_FEEDBACK_LAYOUT: &'static str = "setFeedbackLayout";
    pub const SET_GLOBAL_SETTINGS: &'static str = "setGlobalSettings";
    pub const SET_IMAGE: &'static str = "setImage";
    pub const SET_RESOURCES: &'static str = "setResources";
    pub const SET_SETTINGS: &'static str = "setSettings";
    pub const SET_STATE: &'static str = "setState";
    pub const SET_TITLE: &'static str = "setTitle";
    pub const SET_TRIGGER_DESCRIPTION: &'static str = "setTriggerDescription";
    pub const SHOW_ALERT: &'static str = "showAlert";
    pub const SHOW_OK: &'static str = "showOk";
    pub const SWITCH_TO_PROFILE: &'static str = "switchToProfile";
}

/// A JSON object with the given members, in order.
pub fn object_of(entries: Vec<(String, JsonValue)>) -> (r: JsonValue)
    ensures
        r@ == Json::Object(Seq::new(entries@.len(), |i: int| (entries@[i].0@, entries@[i].1@))),
{
    proof {
        lemma_member_models(entries@);
        assert(member_models(entries@) =~= Seq::new(
            entries@.len(),
            |i: int| (entries@[i].0@, entries@[i].1@),
        ));
    }
    JsonValue::Object(entries)
}

/// A JSON string.
pub fn text_value(s: &str) -> (r: JsonValue)
    ensures
        r@ == Json::Str(s@),
{
    JsonValue::String(s.to_owned())
}

/// An optional text as JSON: `null` when absent.
pub open spec fn opt_text_json(o: Option<Seq<char>>) -> Json {
    match o {
        Some(s) => Json::Str(s),
        None => Json::Null,
    }
}

pub fn opt_text_value(o: Option<&str>) -> (r: JsonValue)
    ensures
        r@ == opt_text_json(opt_str_view(o)),
{
    match o {
        Some(s) => text_value(s),
        None => JsonValue::Null,
    }
}

/// An integer as JSON carries it.
pub open spec fn int_json(i: int) -> Json {
    if i < 0 {
        Json::Number(JsonNumber::NegInt(i as i64))
    } else {
        Json::Number(JsonNumber::PosInt(i as u64))
    }
}

pub fn i32_value(i: i32) -> (r: JsonValue)
    ensures
        r@ == int_json(i as int),
{
    if i < 0 {
        JsonValue::Number(JsonNumber::NegInt(i as i64))
    } else {
        JsonValue::Number(JsonNumber::PosInt(i as u64))
    }
}

/// An optional integer as JSON: `null` when absent.
pub open spec fn opt_int_json(o: Option<i32>) -> Json {
    match o {
        Some(i) => int_json(i as int),
        None => Json::Null,
    }
}

pub fn opt_i32_value(o: Option<i32>) -> (r: JsonValue)
    ensures
        r@ == opt_int_json(o),
{
    match o {
        Some(i) => i32_value(i),
        None => JsonValue::Null,
    }
}

/// A target as JSON: its wire number.
pub fn target_value(t: Target) -> (r: JsonValue)
    ensures
        r@ == int_json(target_number(t) as int),
{
    JsonValue::Number(JsonNumber::PosInt(t.to_u8() as u64))
}

/// Encoder accessibility labels sent with `setTriggerDescription`.
pub struct TriggerDescription {
    /// Rotate hint.
    pub rotate: Option<String>,
    /// Push hint.
    pub push: Option<String>,
    /// Touch hint.
    pub touch: Option<String>,
    /// Long-touch hint.
    pub long_touch: Option<String>,
}

pub struct TriggerDescriptionView {
    pub rotate: Option<Seq<char>>,
    pub push: Option<Seq<char>>,
    pub touch: Option<Seq<char>>,
    pub long_touch: Option<Seq<char>>,
}

impl View for TriggerDescription {
    type V = TriggerDescriptionView;

    open spec fn view(&self) -> TriggerDescriptionView {
        TriggerDescriptionView {
            rotate: opt_str(self.rotate),
            push: opt_str(self.push),
            touch: opt_str(self.touch),
            long_touch: opt_str(self.long_touch),
        }
    }
}

impl Default for TriggerDescription {
    fn default() -> (r: TriggerDescription)
        ensures
            r@ == (TriggerDescriptionView { rotate: None, push: None, touch: None, long_touch: None }),
    {
        TriggerDescription { rotate: None, push: None, touch: None, long_touch: None }
    }
}

impl Clone for TriggerDescription {
    fn clone(&self) -> (r: Self)
        ensures
            r@ == self@,
    {
        TriggerDescription {
            rotate: self.rotate.clone(),
            push: self.push.clone(),
            touch: self.touch.clone(),
            long_touch: self.long_touch.clone(),
        }
    }
}

/// A member `name: text` when the text is present, nothing otherwise.
pub open spec fn optional_member(name: Seq<char>, o: Option<Seq<char>>) -> Seq<(Seq<char>, Json)> {
    match o {
        Some(s) => seq![(name, Json::Str(s))],
        None => Seq::empty(),
    }
}

/// The JSON object of a trigger description: the present hints, under the keys
/// `longTouch`, `push`, `rotate`, `touch` in that order.
pub open spec fn trigger_description_json(d: TriggerDescriptionView) -> Json {
    Json::Object(
        optional_member("longTouch"@, d.long_touch) + optional_member("push"@, d.push)
            + optional_member("rotate"@, d.rotate) + optional_member("touch"@, d.touch),
    )
}

fn push_optional_member(entries: &mut Vec<(String, JsonValue)>, name: &str, o: &Option<String>)
    ensures
        final(entries)@.len() == old(entries)@.len() + optional_member(name@, opt_str(*o)).len(),
        forall|i: int|
            0 <= i < old(entries)@.len() ==> #[trigger] final(entries)@[i] == old(entries)@[i],
        forall|i: int|
            0 <= i < optional_member(name@, opt_str(*o)).len() ==> (
            final(entries)@[old(entries)@.len() + i].0@,
            final(entries)@[old(entries)@.len() + i].1@,
        ) == #[trigger] optional_member(name@, opt_str(*o))[i],
{
    match o {
        Some(s) => {
            entries.push((name.to_owned(), JsonValue::String(s.clone())));
        },
        None => {},
    }
}

impl TriggerDescription {
    /// The JSON object this description is sent as.
    pub fn to_json(&self) -> (r: JsonValue)
        ensures
            r@ == trigger_description_json(self@),
    {
        let mut entries: Vec<(String, JsonValue)> = Vec::new();
        push_optional_member(&mut entries, "longTouch", &self.long_touch);
        push_optional_member(&mut entries, "push", &self.push);
        push_optional_member(&mut entries, "rotate", &self.rotate);
        push_optional_member(&mut entries, "touch", &self.touch);
        let ghost members = optional_member("longTouch"@, self@.long_touch) + optional_member(
            "push"@,
            self@.push,
        ) + optional_member("rotate"@, self@.rotate) + optional_member("touch"@, self@.touch);
        let r = object_of(entries);
        assert(Seq::new(entries@.len(), |i: int| (entries@[i].0@, entries@[i].1@)) =~= members);
        r
    }
}

/// Generic outbound envelope. Absent fields are left out of the JSON.
pub struct OutgoingCommand {
    event: String,
    context: Option<String>,
    device: Option<String>,
    id: Option<String>,
    payload: Option<JsonValue>,
}

pub struct OutgoingCommandView {
    pub event: Seq<char>,
    pub context: Option<Seq<char>>,
    pub device: Option<Seq<char>>,
    pub id: Option<Seq<char>>,
    pub payload: Option<Json>,
}

impl View for OutgoingCommand {
    type V = OutgoingCommandView;

    closed spec fn view(&self) -> OutgoingCommandView {
        OutgoingCommandView {
            event: self.event@,
            context: opt_str(self.context),
            device: opt_str(self.device),
            id: opt_str(self.id),
            payload: opt_json(self.payload),
        }
    }
}

/// A command with the given event name and nothing else.
pub open spec fn bare_command(event: Seq<char>) -> OutgoingCommandView {
    OutgoingCommandView { event, context: None, device: None, id: None, payload: None }
}

/// The JSON object a command is sent as: `event`, then `context`, `device`, `id`
/// and `payload` where present.
pub open spec fn command_json(c: OutgoingCommandView) -> Json {
    Json::Object(
        seq![("event"@, Json::Str(c.event))] + optional_member("context"@, c.context)
            + optional_member("device"@, c.device) + optional_member("id"@, c.id) + match c.payload {
            Some(p) => seq![("payload"@, p)],
            None => Seq::empty(),
        },
    )
}

impl OutgoingCommand {
    /// Start a command with the given event name.
    pub fn new(event: &str) -> (r: OutgoingCommand)
        ensures
            r@ == bare_command(event@),
    {
        OutgoingCommand { event: event.to_owned(), context: None, device: None, id: None, payload: None }
    }

    /// Set `context`.
    pub fn with_context(self, context: &str) -> (r: OutgoingCommand)
        ensures
            r@ == (OutgoingCommandView { context: Some(context@), ..self@ }),
    {
        OutgoingCommand { context: Some(context.to_owned()), ..self }
    }

    /// Set `device`.
    pub fn with_device(self, device: &str) -> (r: OutgoingCommand)
        ensures
            r@ == (OutgoingCommandView { device: Some(device@), ..self@ }),
    {
        OutgoingCommand { device: Some(device.to_owned()), ..self }
    }

    /// Set optional `id`.
    pub fn with_id(self, id: Option<String>) -> (r: OutgoingCommand)
        ensures
            r@ == (OutgoingCommandView { id: opt_str(id), ..self@ }),
    {
        OutgoingCommand { id, ..self }
    }

    /// Set `payload`.
    pub fn with_payload(self, payload: JsonValue) -> (r: OutgoingCommand)
        ensures
            r@ == (OutgoingCommandView { payload: Some(payload@), ..self@ }),
    {
        OutgoingCommand { payload: Some(payload), ..self }
    }

    /// The JSON object this command is sent as.
    pub fn to_json(&self) -> (r: JsonValue)
        ensures
            r@ == command_json(self@),
    {
        let mut entries: Vec<(String, JsonValue)> = Vec::new();
        entries.push(("event".to_owned(), JsonValue::String(self.event.clone())));
        push_optional_member(&mut entries, "context", &self.context);
        push_optional_member(&mut entries, "device", &self.device);
        push_optional_member(&mut entries, "id", &self.id);
        let ghost before = entries@;
        match &self.payload {
            Some(p) => {
                entries.push(("payload".to_owned(), p.clone()));
            },
            None => {},
        }
        let ghost members = seq![("event"@, Json::Str(self@.event))] + optional_member(
            "context"@,
            self@.context,
        ) + optional_member("device"@, self@.device) + optional_member("id"@, self@.id)
            + match self@.payload {
            Some(p) => seq![("payload"@, p)],
            None => Seq::empty(),
        };
        let r = object_of(entries);
        assert(Seq::new(entries@.len(), |i: int| (entries@[i].0@, entries@[i].1@)) =~= members);
        r
    }
}

/// Builds the commands that actions and shared services send. Global commands
/// use the plugin UUID as their `context`.
pub struct CommandSender {
    plugin_uuid: String,
}

impl View for CommandSender {
    type V = Seq<char>;

    closed spec fn view(&self) -> Seq<char> {
        self.plugin_uuid@
    }
}

impl Clone for CommandSender {
    fn clone(&self) -> (r: Self)
        ensures
            r@ == self@,
    {
        CommandSender { plugin_uuid: self.plugin_uuid.clone() }
    }
}

/// A command with an event name, a context and a payload.
pub open spec fn context_command(event: Seq<char>, context: Seq<char>, payload: Json) -> OutgoingCommandView {
    OutgoingCommandView {
        event,
        context: Some(context),
        device: None,
        id: None,
        payload: Some(payload),
    }
}

/// A command with an event name and a context only.
pub open spec fn context_only_command(event: Seq<char>, context: Seq<char>) -> OutgoingCommandView {
    OutgoingCommandView { event, context: Some(context), device: None, id: None, payload: None }
}

/// A command with an event name, a context and an optional request id.
pub open spec fn request_command(event: Seq<char>, context: Seq<char>, id: Option<Seq<char>>) -> OutgoingCommandView {
    OutgoingCommandView { event, context: Some(context), device: None, id, payload: None }
}

/// The payload of `setTitle`: `{ state, target, title }`.
pub open spec fn title_payload(text: Option<Seq<char>>, target: Target, state: Option<i32>) -> Json {
    Json::Object(
        seq![
            ("state"@, opt_int_json(state)),
            ("target"@, int_json(target_number(target) as int)),
            ("title"@, opt_text_json(text)),
        ],
    )
}

/// The payload of `setImage`: `{ image, state, target }`.
pub open spec fn image_payload(image: Option<Seq<char>>, target: Target, state: Option<i32>) -> Json {
    Json::Object(
        seq![
            ("image"@, opt_text_json(image)),
            ("state"@, opt_int_json(state)),
            ("target"@, int_json(target_number(target) as int)),
        ],
    )
}

/// The payload of `switchToProfile`: `{ page, profile }`.
pub open spec fn profile_payload(profile: Option<Seq<char>>, page: Option<i32>) -> Json {
    Json::Object(seq![("page"@, opt_int_json(page)), ("profile"@, opt_text_json(profile))])
}

/// A one-member JSON object.
pub open spec fn single(key: Seq<char>, value: Json) -> Json {
    Json::Object(seq![(key, value)])
}

/// The resource map as a JSON object of texts, in the order given.
pub open spec fn resources_json(resources: Seq<(String, String)>) -> Json {
    Json::Object(Seq::new(resources.len(), |i: int| (resources[i].0@, Json::Str(resources[i].1@))))
}

fn object2(k1: &str, v1: JsonValue, k2: &str, v2: JsonValue) -> (r: JsonValue)
    ensures
        r@ == Json::Object(seq![(k1@, v1@), (k2@, v2@)]),
{
    let v = vec![(k1.to_owned(), v1), (k2.to_owned(), v2)];
    assert(Seq::new(v@.len(), |i: int| (v@[i].0@, v@[i].1@)) =~= seq![(k1@, v1@), (k2@, v2@)]);
    object_of(v)
}

fn object3(k1: &str, v1: JsonValue, k2: &str, v2: JsonValue, k3: &str, v3: JsonValue) -> (r:
    JsonValue)
    ensures
        r@ == Json::Object(seq![(k1@, v1@), (k2@, v2@), (k3@, v3@)]),
{
    let v = vec![(k1.to_owned(), v1), (k2.to_owned(), v2), (k3.to_owned(), v3)];
    assert(Seq::new(v@.len(), |i: int| (v@[i].0@, v@[i].1@)) =~= seq![
        (k1@, v1@),
        (k2@, v2@),
        (k3@, v3@),
    ]);
    object_of(v)
}

fn single_value(key: &str, value: JsonValue) -> (r: JsonValue)
    ensures
        r@ == single(key@, value@),
{
    let v = vec![(key.to_owned(), value)];
    assert(Seq::new(v@.len(), |i: int| (v@[i].0@, v@[i].1@)) =~= seq![(key@, value@)]);
    object_of(v)
}

impl CommandSender {
    /// A command builder for the plugin with the given UUID.
    pub fn new(plugin_uuid: &str) -> (r: CommandSender)
        ensures
            r@ == plugin_uuid@,
    {
        CommandSender { plugin_uuid: plugin_uuid.to_owned() }
    }

    /// Plugin UUID used as `context` for global commands.
    pub fn plugin_uuid(&self) -> (r: &str)
        ensures
            r@ == self@,
    {
        self.plugin_uuid.as_str()
    }

    /// `setTitle`
    pub fn set_title(&self, context: &str, title: Option<&str>, target: Target, state: Option<i32>) -> (r:
        OutgoingCommand)
        ensures
            r@ == context_command(
                CommandNames::SET_TITLE@,
                context@,
                title_payload(opt_str_view(title), target, state),
            ),
            r@.event == "setTitle"@,
    {
        let payload = object3(
            "state",
            opt_i32_value(state),
            "target",
            target_value(target),
            "title",
            opt_text_value(title),
        );
        OutgoingCommand::new(CommandNames::SET_TITLE).with_context(context).with_payload(payload)
    }

    /// `setImage` from a data URL or path string.
    pub fn set_image(&self, context: &str, image: Option<&str>, target: Target, state: Option<i32>) -> (r:
        OutgoingCommand)
        ensures
            r@ == context_command(
                CommandNames::SET_IMAGE@,
                context@,
                image_payload(opt_str_view(image), target, state),
            ),
            r@.event == "setImage"@,
    {
        let payload = object3(
            "image",
            opt_text_value(image),
            "state",
            opt_i32_value(state),
            "target",
            target_value(target),
        );
        OutgoingCommand::new(CommandNames::SET_IMAGE).with_context(context).with_payload(payload)
    }

    /// `setImage` from PNG bytes, sent as a `data:image/png;base64,` URL.
    pub fn set_image_bytes(&self, context: &str, png_bytes: &[u8], target: Target, state: Option<i32>) -> (r:
        OutgoingCommand)
        ensures
            r@ == context_command(
                CommandNames::SET_IMAGE@,
                context@,
                image_payload(
                    Some(data_url_text("image/png"@, png_bytes@)),
                    target,
                    state,
                ),
            ),
            r@.event == "setImage"@,
    {
        let url = data_url("image/png", png_bytes);
        self.set_image(context, Some(url.as_str()), target, state)
    }

    /// `setImage` from the bytes of an image file whose name has the given
    /// extension; the MIME type follows the extension.
    pub fn set_image_from_file(
        &self,
        context: &str,
        extension: Option<&str>,
        bytes: &[u8],
        target: Target,
        state: Option<i32>,
    ) -> (r: OutgoingCommand)
        ensures
            r@ == context_command(
                CommandNames::SET_IMAGE@,
                context@,
                image_payload(
                    Some(data_url_text(image_mime(opt_str_view(extension)), bytes@)),
                    target,
                    state,
                ),
            ),
            r@.event == "setImage"@,
    {
        let mime = mime_for_extension(extension);
        let url = data_url(mime, bytes);
        self.set_image(context, Some(url.as_str()), target, state)
    }

    /// `setState`
    pub fn set_state(&self, context: &str, state: i32) -> (r: OutgoingCommand)
        ensures
            r@ == context_command(
                CommandNames::SET_STATE@,
                context@,
                single("state"@, int_json(state as int)),
            ),
            r@.event == "setState"@,
    {
        let payload = single_value("state", i32_value(state));
        OutgoingCommand::new(CommandNames::SET_STATE).with_context(context).with_payload(payload)
    }

    /// `setSettings`: the payload is the settings object itself.
    pub fn set_settings(&self, context: &str, settings: &JsonValue) -> (r: OutgoingCommand)
        ensures
            r@ == context_command(CommandNames::SET_SETTINGS@, context@, settings@),
            r@.event == "setSettings"@,
    {
        OutgoingCommand::new(CommandNames::SET_SETTINGS).with_context(context).with_payload(
            settings.clone(),
        )
    }

    /// `getSettings`
    pub fn get_settings(&self, context: &str, id: Option<String>) -> (r: OutgoingCommand)
        ensures
            r@ == request_command(CommandNames::GET_SETTINGS@, context@, opt_str(id)),
            r@.event == "getSettings"@,
    {
        OutgoingCommand::new(CommandNames::GET_SETTINGS).with_context(context).with_id(id)
    }

    /// `setGlobalSettings`
    pub fn set_global_settings(&self, settings: &JsonValue) -> (r: OutgoingCommand)
        ensures
            r@ == context_command(CommandNames::SET_GLOBAL_SETTINGS@, self@, settings@),
            r@.event == "setGlobalSettings"@,
    {
        OutgoingCommand::new(CommandNames::SET_GLOBAL_SETTINGS).with_context(
            self.plugin_uuid.as_str(),
        ).with_payload(settings.clone())
    }

    /// `getGlobalSettings`
    pub fn get_global_settings(&self, id: Option<String>) -> (r: OutgoingCommand)
        ensures
            r@ == request_command(CommandNames::GET_GLOBAL_SETTINGS@, self@, opt_str(id)),
            r@.event == "getGlobalSettings"@,
    {
        OutgoingCommand::new(CommandNames::GET_GLOBAL_SETTINGS).with_context(
            self.plugin_uuid.as_str(),
        ).with_id(id)
    }

    /// `showOk`
    pub fn show_ok(&self, context: &str) -> (r: OutgoingCommand)
        ensures
            r@ == context_only_command(CommandNames::SHOW_OK@, context@),
            r@.event == "showOk"@,
    {
        OutgoingCommand::new(CommandNames::SHOW_OK).with_context(context)
    }

    /// `showAlert`
    pub fn show_alert(&self, context: &str) -> (r: OutgoingCommand)
        ensures
            r@ == context_only_command(CommandNames::SHOW_ALERT@, context@),
            r@.event == "showAlert"@,
    {
        OutgoingCommand::new(CommandNames::SHOW_ALERT).with_context(context)
    }

    /// `sendToPropertyInspector`
    pub fn send_to_property_inspector(&self, context: &str, payload: &JsonValue) -> (r: OutgoingCommand)
        ensures
            r@ == context_command(CommandNames::SEND_TO_PROPERTY_INSPECTOR@, context@, payload@),
            r@.event == "sendToPropertyInspector"@,
    {
        OutgoingCommand::new(CommandNames::SEND_TO_PROPERTY_INSPECTOR).with_context(
            context,
        ).with_payload(payload.clone())
    }

    /// `setFeedback`
    pub fn set_feedback(&self, context: &str, payload: &JsonValue) -> (r: OutgoingCommand)
        ensures
            r@ == context_command(CommandNames::SET_FEEDBACK@, context@, payload@),
            r@.event == "setFeedback"@,
    {
        OutgoingCommand::new(CommandNames::SET_FEEDBACK).with_context(context).with_payload(
            payload.clone(),
        )
    }

    /// `setFeedbackLayout`
    pub fn set_feedback_layout(&self, context: &str, layout: &str) -> (r: OutgoingCommand)
        ensures
            r@ == context_command(
                CommandNames::SET_FEEDBACK_LAYOUT@,
                context@,
                single("layout"@, Json::Str(layout@)),
            ),
            r@.event == "setFeedbackLayout"@,
    {
        let payload = single_value("layout", text_value(layout));
        OutgoingCommand::new(CommandNames::SET_FEEDBACK_LAYOUT).with_context(context).with_payload(
            payload,
        )
    }

    /// `setTriggerDescription`
    pub fn set_trigger_description(&self, context: &str, description: &TriggerDescription) -> (r:
        OutgoingCommand)
        ensures
            r@ == context_command(
                CommandNames::SET_TRIGGER_DESCRIPTION@,
                context@,
                trigger_description_json(description@),
            ),
            r@.event == "setTriggerDescription"@,
    {
        OutgoingCommand::new(CommandNames::SET_TRIGGER_DESCRIPTION).with_context(
            context,
        ).with_payload(description.to_json())
    }

    /// `openUrl`
    pub fn open_url(&self, url: &str) -> (r: OutgoingCommand)
        ensures
            r@ == (OutgoingCommandView {
                payload: Some(single("url"@, Json::Str(url@))),
                ..bare_command(CommandNames::OPEN_URL@)
            }),
            r@.event == "openUrl"@,
    {
        OutgoingCommand::new(CommandNames::OPEN_URL).with_payload(single_value("url", text_value(url)))
    }

    /// `logMessage`
    pub fn log_message(&self, message: &str) -> (r: OutgoingCommand)
        ensures
            r@ == (OutgoingCommandView {
                payload: Some(single("message"@, Json::Str(message@))),
                ..bare_command(CommandNames::LOG_MESSAGE@)
            }),
            r@.event == "logMessage"@,
    {
        OutgoingCommand::new(CommandNames::LOG_MESSAGE).with_payload(
            single_value("message", text_value(message)),
        )
    }

    /// `switchToProfile`
    pub fn switch_to_profile(&self, device: &str, profile: Option<&str>, page: Option<i32>) -> (r:
        OutgoingCommand)
        ensures
            r@ == (OutgoingCommandView {
                event: CommandNames::SWITCH_TO_PROFILE@,
                context: Some(self@),
                device: Some(device@),
                id: None,
                payload: Some(profile_payload(opt_str_view(profile), page)),
            }),
            r@.event == "switchToProfile"@,
    {
        let payload = object2("page", opt_i32_value(page), "profile", opt_text_value(profile));
        OutgoingCommand::new(CommandNames::SWITCH_TO_PROFILE).with_context(
            self.plugin_uuid.as_str(),
        ).with_device(device).with_payload(payload)
    }

    /// `getSecrets`
    pub fn get_secrets(&self) -> (r: OutgoingCommand)
        ensures
            r@ == context_only_command(CommandNames::GET_SECRETS@, self@),
            r@.event == "getSecrets"@,
    {
        OutgoingCommand::new(CommandNames::GET_SECRETS).with_context(self.plugin_uuid.as_str())
    }

    /// `getResources`
    pub fn get_resources(&self, context: &str, id: Option<String>) -> (r: OutgoingCommand)
        ensures
            r@ == request_command(CommandNames::GET_RESOURCES@, context@, opt_str(id)),
            r@.event == "getResources"@,
    {
        OutgoingCommand::new(CommandNames::GET_RESOURCES).with_context(context).with_id(id)
    }

    /// `setResources`: the payload is the resource map itself.
    pub fn set_resources(&self, context: &str, resources: &Vec<(String, String)>) -> (r:
        OutgoingCommand)
        ensures
            r@ == context_command(
                CommandNames::SET_RESOURCES@,
                context@,
                resources_json(resources@),
            ),
            r@.event == "setResources"@,
    {
        let mut entries: Vec<(String, JsonValue)> = Vec::new();
        let mut i: usize = 0;
        while i < resources.len()
            invariant
                0 <= i <= resources@.len(),
                entries@.len() == i,
                forall|j: int|
                    0 <= j < i ==> (#[trigger] entries@[j]).0@ == resources@[j].0@ && entries@[j].1@
                        == Json::Str(resources@[j].1@),
            decreases resources@.len() - i,
        {
            entries.push((resources[i].0.clone(), JsonValue::String(resources[i].1.clone())));
            i = i + 1;
        }
        let payload = object_of(entries);
        assert(payload@ =~= resources_json(resources@)) by {
            assert(Seq::new(entries@.len(), |i: int| (entries@[i].0@, entries@[i].1@)) =~= Seq::new(
                resources@.len(),
                |i: int| (resources@[i].0@, Json::Str(resources@[i].1@)),
            ));
        }
        OutgoingCommand::new(CommandNames::SET_RESOURCES).with_context(context).with_payload(payload)
    }
}

} // verus!
