//! Inbound event names, device and registration metadata, and the raw inbound message.
use vstd::prelude::*;

use crate::decode::{
    de_i32, de_opt_json, de_opt_text, de_real, de_text, number_as_unsigned, read_i32,
    read_number_unsigned, read_opt_json, read_opt_text, read_real, read_text, record_field,
    record_field_exec, record_shape, record_shape_exec,
};
use crate::json::{lemma_models_of, models_of, opt_model, Json, JsonNumber, JsonValue};

verus! {

/// Incoming WebSocket event names defined by the Stream Deck plugin protocol.
pub struct EventNames;

impl EventNames {
    pub const APPLICATION_DID_LAUNCH: &'static str = "applicationDidLaunch";
    pub const APPLICATION_DID_TERMINATE: &'static str = "applicationDidTerminate";
    pub const DEVICE_DID_CHANGE: &'static str = "deviceDidChange";
    pub const DEVICE_DID_CONNECT: &'static str = "deviceDidConnect";
    pub const DEVICE_DID_DISCONNECT: &'static str = "deviceDidDisconnect";
    pub const DIAL_DOWN: &'static str = "dialDown";
    pub const DIAL_ROTATE: &'static str = "dialRotate";
    pub const DIAL_UP: &'static str = "dialUp";
    pub const DID_RECEIVE_DEEP_LINK: &'static str = "didReceiveDeepLink";
    pub const DID_RECEIVE_GLOBAL_SETTINGS: &'static str = "didReceiveGlobalSettings";
    pub const SEND_TO_PLUGIN: &'static str = "sendToPlugin";
    pub const DID_RECEIVE_RESOURCES: &'static str = "didReceiveResources";
    pub const DID_RECEIVE_SECRETS: &'static str = "didReceiveSecrets";
    pub const DID_RECEIVE_SETTINGS: &'static str = "didReceiveSettings";
    pub const KEY_DOWN: &'static str = "keyDown";
    pub const KEY_UP: &'static str = "keyUp";
    pub const PROPERTY_INSPECTOR_DID_APPEAR: &'static str = "propertyInspectorDidAppear";
    pub const PROPERTY_INSPECTOR_DID_DISAPPEAR: &'static str = "propertyInspectorDidDisappear";
    pub const SYSTEM_DID_WAKE_UP: &'static str = "systemDidWakeUp";
    pub const TITLE_PARAMETERS_DID_CHANGE: &'static str = "titleParametersDidChange";
    pub const TOUCH_TAP: &'static str = "touchTap";
    pub const WILL_APPEAR: &'static str = "willAppear";
    pub const WILL_DISAPPEAR: &'static str = "willDisappear";
}

/// Hardware family identifiers used by the WebSocket plugin protocol.
#[derive(Debug, Clone, Copy, PartialEq, Eq, Structural)]
pub enum DeviceType {
    StreamDeck,
    StreamDeckMini,
    StreamDeckXl,
    StreamDeckMobile,
    CorsairGKeys,
    StreamDeckPedal,
    CorsairVoyager,
    StreamDeckPlus,
    ScufController,
    StreamDeckNeo,
    StreamDeckStudio,
    VirtualStreamDeck,
    Galleon100Sd,
    StreamDeckPlusXl,
}

/// The wire number of each device family.
pub open spec fn device_type_number(d: DeviceType) -> u32 {
    match d {
        DeviceType::StreamDeck => 0,
        DeviceType::StreamDeckMini => 1,
        DeviceType::StreamDeckXl => 2,
        DeviceType::StreamDeckMobile => 3,
        DeviceType::CorsairGKeys => 4,
        DeviceType::StreamDeckPedal => 5,
        DeviceType::CorsairVoyager => 6,
        DeviceType::StreamDeckPlus => 7,
        DeviceType::ScufController => 8,
        DeviceType::StreamDeckNeo => 9,
        DeviceType::StreamDeckStudio => 10,
        DeviceType::VirtualStreamDeck => 11,
        DeviceType::Galleon100Sd => 12,
        DeviceType::StreamDeckPlusXl => 13,
    }
}

/// The family with wire number `value`; nothing for a number no family has.
pub open spec fn device_type_from_number(value: u32) -> Option<DeviceType> {
    if value == 0 {
        Some(DeviceType::StreamDeck)
    } else if value == 1 {
        Some(DeviceType::StreamDeckMini)
    } else if value == 2 {
        Some(DeviceType::StreamDeckXl)
    } else if value == 3 {
        Some(DeviceType::StreamDeckMobile)
    } else if value == 4 {
        Some(DeviceType::CorsairGKeys)
    } else if value == 5 {
        Some(DeviceType::StreamDeckPedal)
    } else if value == 6 {
        Some(DeviceType::CorsairVoyager)
    } else if value == 7 {
        Some(DeviceType::StreamDeckPlus)
    } else if value == 8 {
        Some(DeviceType::ScufController)
    } else if value == 9 {
        Some(DeviceType::StreamDeckNeo)
    } else if value == 10 {
        Some(DeviceType::StreamDeckStudio)
    } else if value == 11 {
        Some(DeviceType::VirtualStreamDeck)
    } else if value == 12 {
        Some(DeviceType::Galleon100Sd)
    } else if value == 13 {
        Some(DeviceType::StreamDeckPlusXl)
    } else {
        None
    }
}

impl DeviceType {
    /// The family with wire number `value`; nothing for a number no family has.
    pub fn from_u32(value: u32) -> (r: Option<DeviceType>)
        ensures
            r == device_type_from_number(value),
    {
        match value {
            0 => Some(DeviceType::StreamDeck),
            1 => Some(DeviceType::StreamDeckMini),
            2 => Some(DeviceType::StreamDeckXl),
            3 => Some(DeviceType::StreamDeckMobile),
            4 => Some(DeviceType::CorsairGKeys),
            5 => Some(DeviceType::StreamDeckPedal),
            6 => Some(DeviceType::CorsairVoyager),
            7 => Some(DeviceType::StreamDeckPlus),
            8 => Some(DeviceType::ScufController),
            9 => Some(DeviceType::StreamDeckNeo),
            10 => Some(DeviceType::StreamDeckStudio),
            11 => Some(DeviceType::VirtualStreamDeck),
            12 => Some(DeviceType::Galleon100Sd),
            13 => Some(DeviceType::StreamDeckPlusXl),
            _ => None,
        }
    }

    /// The wire number of this family, as it is serialized.
    pub fn to_u32(self) -> (r: u32)
        ensures
            r == device_type_number(self),
    {
        match self {
            DeviceType::StreamDeck => 0,
            DeviceType::StreamDeckMini => 1,
            DeviceType::StreamDeckXl => 2,
            DeviceType::StreamDeckMobile => 3,
            DeviceType::CorsairGKeys => 4,
            DeviceType::StreamDeckPedal => 5,
            DeviceType::CorsairVoyager => 6,
            DeviceType::StreamDeckPlus => 7,
            DeviceType::ScufController => 8,
            DeviceType::StreamDeckNeo => 9,
            DeviceType::StreamDeckStudio => 10,
            DeviceType::VirtualStreamDeck => 11,
            DeviceType::Galleon100Sd => 12,
            DeviceType::StreamDeckPlusXl => 13,
        }
    }
}

/// Controller kind that owns an action instance.
///
/// The protocol sends PascalCase strings (`Keypad`, `Encoder`, `Neo`).
#[derive(Debug, Clone, Copy, PartialEq, Eq, Structural)]
pub enum Controller {
    /// Face buttons.
    Keypad,
    /// Stream Deck + encoder / touch strip.
    Encoder,
    /// Stream Deck Neo.
    Neo,
}

/// The wire name of each controller.
pub open spec fn controller_name(c: Controller) -> Seq<char> {
    match c {
        Controller::Keypad => "Keypad"@,
        Controller::Encoder => "Encoder"@,
        Controller::Neo => "Neo"@,
    }
}

/// The controller a wire string names: `Encoder` and `Neo` are recognized,
/// every other string reads as `Keypad`.
pub open spec fn controller_from_name(s: Seq<char>) -> Controller {
    if s == "Encoder"@ {
        Controller::Encoder
    } else if s == "Neo"@ {
        Controller::Neo
    } else {
        Controller::Keypad
    }
}

impl Default for Controller {
    fn default() -> (r: Controller)
        ensures
            r == Controller::Keypad,
    {
        Controller::Keypad
    }
}

impl Controller {
    /// The wire name of this controller.
    pub fn as_protocol_str(self) -> (r: &'static str)
        ensures
            r@ == controller_name(self),
    {
        match self {
            Controller::Keypad => "Keypad",
            Controller::Encoder => "Encoder",
            Controller::Neo => "Neo",
        }
    }

    /// The controller that a wire string names.
    pub fn from_protocol_str(s: &str) -> (r: Controller)
        ensures
            r == controller_from_name(s@),
    {
        if crate::text::str_eq(s, "Encoder") {
            Controller::Encoder
        } else if crate::text::str_eq(s, "Neo") {
            Controller::Neo
        } else {
            Controller::Keypad
        }
    }
}

/// Destination for visual updates such as titles and images.
#[derive(Debug, Clone, Copy, PartialEq, Eq, Structural)]
pub enum Target {
    /// Hardware and software (default).
    HardwareAndSoftware,
    /// Hardware only.
    Hardware,
    /// Software only.
    Software,
}

/// The wire number of each target.
pub open spec fn target_number(t: Target) -> u8 {
    match t {
        Target::HardwareAndSoftware => 0,
        Target::Hardware => 1,
        Target::Software => 2,
    }
}

/// The target a wire number names; every number but 1 and 2 reads as both.
pub open spec fn target_from_number(n: u8) -> Target {
    if n == 1 {
        Target::Hardware
    } else if n == 2 {
        Target::Software
    } else {
        Target::HardwareAndSoftware
    }
}

impl Default for Target {
    fn default() -> (r: Target)
        ensures
            r == Target::HardwareAndSoftware,
    {
        Target::HardwareAndSoftware
    }
}

impl Target {
    /// The wire number of this target, as it is serialized.
    pub fn to_u8(self) -> (r: u8)
        ensures
            r == target_number(self),
    {
        match self {
            Target::HardwareAndSoftware => 0,
            Target::Hardware => 1,
            Target::Software => 2,
        }
    }

    /// The target that a wire number names.
    pub fn from_u8(value: u8) -> (r: Target)
        ensures
            r == target_from_number(value),
    {
        if value == 1 {
            Target::Hardware
        } else if value == 2 {
            Target::Software
        } else {
            Target::HardwareAndSoftware
        }
    }
}

/// Zero-based slot coordinates on a Stream Deck device.
#[derive(Debug, Clone, Copy, PartialEq, Eq, Structural)]
pub struct Coordinates {
    /// Column index.
    pub column: i32,
    /// Row index.
    pub row: i32,
}

impl Default for Coordinates {
    fn default() -> (r: Coordinates)
        ensures
            r == (Coordinates { column: 0, row: 0 }),
    {
        Coordinates { column: 0, row: 0 }
    }
}

/// Key grid size reported for a connected device.
#[derive(Debug, Clone, Copy, PartialEq, Eq, Structural)]
pub struct DeviceSize {
    /// Column count.
    pub columns: i32,
    /// Row count.
    pub rows: i32,
}

impl Default for DeviceSize {
    fn default() -> (r: DeviceSize)
        ensures
            r == (DeviceSize { columns: 0, rows: 0 }),
    {
        DeviceSize { columns: 0, rows: 0 }
    }
}

/// Device metadata provided during registration and device events.
pub struct DeviceInfo {
    /// Device identifier.
    pub id: String,
    /// Display name.
    pub name: String,
    /// Button grid size.
    pub size: DeviceSize,
    /// Hardware family (the wire field `type`).
    pub device_type: Option<DeviceType>,
}

pub struct DeviceInfoView {
    pub id: Seq<char>,
    pub name: Seq<char>,
    pub size: DeviceSize,
    pub device_type: Option<DeviceType>,
}

impl View for DeviceInfo {
    type V = DeviceInfoView;

    open spec fn view(&self) -> DeviceInfoView {
        DeviceInfoView {
            id: self.id@,
            name: self.name@,
            size: self.size,
            device_type: self.device_type,
        }
    }
}

impl Clone for DeviceInfo {
    fn clone(&self) -> (r: Self)
        ensures
            r@ == self@,
    {
        DeviceInfo {
            id: self.id.clone(),
            name: self.name.clone(),
            size: self.size,
            device_type: self.device_type,
        }
    }
}

impl Default for DeviceInfo {
    fn default() -> (r: DeviceInfo)
        ensures
            r@ == (DeviceInfoView {
                id: Seq::empty(),
                name: Seq::empty(),
                size: DeviceSize { columns: 0, rows: 0 },
                device_type: None,
            }),
    {
        DeviceInfo {
            id: String::new(),
            name: String::new(),
            size: DeviceSize::default(),
            device_type: None,
        }
    }
}

/// Host application metadata from `-info`.
pub struct ApplicationInfo {
    pub font: String,
    pub language: String,
    /// `windows` or `mac`.
    pub platform: String,
    pub platform_version: String,
    pub version: String,
}

pub struct ApplicationInfoView {
    pub font: Seq<char>,
    pub language: Seq<char>,
    pub platform: Seq<char>,
    pub platform_version: Seq<char>,
    pub version: Seq<char>,
}

impl View for ApplicationInfo {
    type V = ApplicationInfoView;

    open spec fn view(&self) -> ApplicationInfoView {
        ApplicationInfoView {
            font: self.font@,
            language: self.language@,
            platform: self.platform@,
            platform_version: self.platform_version@,
            version: self.version@,
        }
    }
}

impl Default for ApplicationInfo {
    fn default() -> (r: ApplicationInfo)
        ensures
            r@ == (ApplicationInfoView {
                font: Seq::empty(),
                language: Seq::empty(),
                platform: Seq::empty(),
                platform_version: Seq::empty(),
                version: Seq::empty(),
            }),
    {
        ApplicationInfo {
            font: String::new(),
            language: String::new(),
            platform: String::new(),
            platform_version: String::new(),
            version: String::new(),
        }
    }
}

/// Color tokens from `-info`.
pub struct ColorInfo {
    pub button_mouse_over_background_color: String,
    pub button_pressed_background_color: String,
    pub button_pressed_border_color: String,
    pub button_pressed_text_color: String,
    pub highlight_color: String,
}

pub struct ColorInfoView {
    pub button_mouse_over_background_color: Seq<char>,
    pub button_pressed_background_color: Seq<char>,
    pub button_pressed_border_color: Seq<char>,
    pub button_pressed_text_color: Seq<char>,
    pub highlight_color: Seq<char>,
}

impl View for ColorInfo {
    type V = ColorInfoView;

    open spec fn view(&self) -> ColorInfoView {
        ColorInfoView {
            button_mouse_over_background_color: self.button_mouse_over_background_color@,
            button_pressed_background_color: self.button_pressed_background_color@,
            button_pressed_border_color: self.button_pressed_border_color@,
            button_pressed_text_color: self.button_pressed_text_color@,
            highlight_color: self.highlight_color@,
        }
    }
}

impl Default for ColorInfo {
    fn default() -> (r: ColorInfo)
        ensures
            r@ == (ColorInfoView {
                button_mouse_over_background_color: Seq::empty(),
                button_pressed_background_color: Seq::empty(),
                button_pressed_border_color: Seq::empty(),
                button_pressed_text_color: Seq::empty(),
                highlight_color: Seq::empty(),
            }),
    {
        ColorInfo {
            button_mouse_over_background_color: String::new(),
            button_pressed_background_color: String::new(),
            button_pressed_border_color: String::new(),
            button_pressed_text_color: String::new(),
            highlight_color: String::new(),
        }
    }
}

/// Plugin identity from `-info`.
pub struct PluginInfo {
    pub uuid: String,
    pub version: String,
}

pub struct PluginInfoView {
    pub uuid: Seq<char>,
    pub version: Seq<char>,
}

impl View for PluginInfo {
    type V = PluginInfoView;

    open spec fn view(&self) -> PluginInfoView {
        PluginInfoView { uuid: self.uuid@, version: self.version@ }
    }
}

impl Default for PluginInfo {
    fn default() -> (r: PluginInfo)
        ensures
            r@ == (PluginInfoView { uuid: Seq::empty(), version: Seq::empty() }),
    {
        PluginInfo { uuid: String::new(), version: String::new() }
    }
}

/// Startup information supplied through the `-info` argument.
pub struct RegistrationInfo {
    pub application: ApplicationInfo,
    pub colors: ColorInfo,
    /// Display scale, as the JSON number that carried it.
    pub device_pixel_ratio: JsonNumber,
    /// Connected devices at launch.
    pub devices: Vec<DeviceInfo>,
    pub plugin: PluginInfo,
}

pub struct RegistrationInfoView {
    pub application: ApplicationInfoView,
    pub colors: ColorInfoView,
    pub device_pixel_ratio: JsonNumber,
    pub devices: Seq<DeviceInfoView>,
    pub plugin: PluginInfoView,
}

impl View for RegistrationInfo {
    type V = RegistrationInfoView;

    open spec fn view(&self) -> RegistrationInfoView {
        RegistrationInfoView {
            application: self.application@,
            colors: self.colors@,
            device_pixel_ratio: self.device_pixel_ratio,
            devices: self.devices@.map_values(|d: DeviceInfo| d@),
            plugin: self.plugin@,
        }
    }
}

/// The `-info` payload when Stream Deck gave none (or none that could be read).
pub open spec fn default_registration_info() -> RegistrationInfoView {
    RegistrationInfoView {
        application: ApplicationInfoView {
            font: Seq::empty(),
            language: Seq::empty(),
            platform: Seq::empty(),
            platform_version: Seq::empty(),
            version: Seq::empty(),
        },
        colors: ColorInfoView {
            button_mouse_over_background_color: Seq::empty(),
            button_pressed_background_color: Seq::empty(),
            button_pressed_border_color: Seq::empty(),
            button_pressed_text_color: Seq::empty(),
            highlight_color: Seq::empty(),
        },
        device_pixel_ratio: JsonNumber::PosInt(0),
        devices: Seq::empty(),
        plugin: PluginInfoView { uuid: Seq::empty(), version: Seq::empty() },
    }
}

impl Default for RegistrationInfo {
    fn default() -> (r: RegistrationInfo)
        ensures
            r@ == default_registration_info(),
    {
        let r = RegistrationInfo {
            application: ApplicationInfo::default(),
            colors: ColorInfo::default(),
            device_pixel_ratio: JsonNumber::PosInt(0),
            devices: Vec::new(),
            plugin: PluginInfo::default(),
        };
        assert(r@.devices =~= Seq::empty());
        r
    }
}

/// Raw inbound Stream Deck message before action-specific dispatch.
pub struct IncomingMessage {
    /// Event name.
    pub event: String,
    /// Action UUID.
    pub action: Option<String>,
    /// Instance context.
    pub context: Option<String>,
    /// Device identifier.
    pub device: Option<String>,
    /// Optional request id.
    pub id: Option<String>,
    /// Present on device connect/change.
    pub device_info: Option<DeviceInfo>,
    /// Event payload.
    pub payload: Option<JsonValue>,
}

pub open spec fn opt_str(o: Option<String>) -> Option<Seq<char>> {
    match o {
        Some(s) => Some(s@),
        None => None,
    }
}

pub open spec fn opt_json(o: Option<JsonValue>) -> Option<Json> {
    match o {
        Some(v) => Some(v@),
        None => None,
    }
}

pub struct IncomingMessageView {
    pub event: Seq<char>,
    pub action: Option<Seq<char>>,
    pub context: Option<Seq<char>>,
    pub device: Option<Seq<char>>,
    pub id: Option<Seq<char>>,
    pub device_info: Option<DeviceInfoView>,
    pub payload: Option<Json>,
}

impl View for IncomingMessage {
    type V = IncomingMessageView;

    open spec fn view(&self) -> IncomingMessageView {
        IncomingMessageView {
            event: self.event@,
            action: opt_str(self.action),
            context: opt_str(self.context),
            device: opt_str(self.device),
            id: opt_str(self.id),
            device_info: match self.device_info {
                Some(d) => Some(d@),
                None => None,
            },
            payload: opt_json(self.payload),
        }
    }
}

impl IncomingMessage {
    /// True when a JSON payload object or value is present.
    pub fn has_payload(&self) -> (r: bool)
        ensures
            r == (self@.payload matches Some(p) && !(p is Null)),
    {
        match &self.payload {
            None => false,
            Some(p) => !p.is_null(),
        }
    }
}

/// The grid size a JSON value carries (fields `columns`, `rows`, both required).
pub open spec fn device_size_of(v: Json) -> Option<DeviceSize> {
    if !record_shape(v, 2) {
        None
    } else {
        match (de_i32(record_field(v, "columns"@, 0)), de_i32(record_field(v, "rows"@, 1))) {
            (Some(c), Some(r)) => Some(DeviceSize { columns: c, rows: r }),
            _ => None,
        }
    }
}

/// A grid-size field: absent reads as the empty grid.
pub open spec fn de_device_size(f: Option<Json>) -> Option<DeviceSize> {
    match f {
        None => Some(DeviceSize { columns: 0, rows: 0 }),
        Some(v) => device_size_of(v),
    }
}

/// An optional device-family field: absent or `null` reads as nothing; a number
/// must name a family.
pub open spec fn de_opt_device_type(f: Option<Json>) -> Option<Option<DeviceType>> {
    match f {
        None => Some(None),
        Some(Json::Null) => Some(None),
        Some(Json::Number(n)) => match number_as_unsigned(n, 0xffff_ffff) {
            Some(u) => match device_type_from_number(u as u32) {
                Some(d) => Some(Some(d)),
                None => None,
            },
            None => None,
        },
        Some(_) => None,
    }
}

/// The device metadata a JSON value carries (fields `id`, `name`, `size`, `type`).
pub open spec fn device_info_of(v: Json) -> Option<DeviceInfoView> {
    if !record_shape(v, 4) {
        None
    } else {
        match (
            de_text(record_field(v, "id"@, 0)),
            de_text(record_field(v, "name"@, 1)),
            de_device_size(record_field(v, "size"@, 2)),
            de_opt_device_type(record_field(v, "type"@, 3)),
        ) {
            (Some(a), Some(b), Some(c), Some(d)) => Some(
                DeviceInfoView { id: a, name: b, size: c, device_type: d },
            ),
            _ => None,
        }
    }
}

/// An optional device-metadata field: absent or `null` reads as nothing.
pub open spec fn de_opt_device_info(f: Option<Json>) -> Option<Option<DeviceInfoView>> {
    match f {
        None => Some(None),
        Some(Json::Null) => Some(None),
        Some(v) => match device_info_of(v) {
            Some(d) => Some(Some(d)),
            None => None,
        },
    }
}

/// A list-of-devices field: absent reads as empty; every element must read.
pub open spec fn de_devices(f: Option<Json>) -> Option<Seq<DeviceInfoView>> {
    match f {
        None => Some(Seq::empty()),
        Some(Json::Array(items)) => if forall|i: int|
            0 <= i < items.len() ==> #[trigger] device_info_of(items[i]) is Some {
            Some(Seq::new(items.len(), |i: int| device_info_of(items[i])->0))
        } else {
            None
        },
        Some(_) => None,
    }
}

pub open spec fn application_info_of(v: Json) -> Option<ApplicationInfoView> {
    if !record_shape(v, 5) {
        None
    } else {
        match (
            de_text(record_field(v, "font"@, 0)),
            de_text(record_field(v, "language"@, 1)),
            de_text(record_field(v, "platform"@, 2)),
            de_text(record_field(v, "platformVersion"@, 3)),
            de_text(record_field(v, "version"@, 4)),
        ) {
            (Some(a), Some(b), Some(c), Some(d), Some(e)) => Some(
                ApplicationInfoView {
                    font: a,
                    language: b,
                    platform: c,
                    platform_version: d,
                    version: e,
                },
            ),
            _ => None,
        }
    }
}

pub open spec fn color_info_of(v: Json) -> Option<ColorInfoView> {
    if !record_shape(v, 5) {
        None
    } else {
        match (
            de_text(record_field(v, "buttonMouseOverBackgroundColor"@, 0)),
            de_text(record_field(v, "buttonPressedBackgroundColor"@, 1)),
            de_text(record_field(v, "buttonPressedBorderColor"@, 2)),
            de_text(record_field(v, "buttonPressedTextColor"@, 3)),
            de_text(record_field(v, "highlightColor"@, 4)),
        ) {
            (Some(a), Some(b), Some(c), Some(d), Some(e)) => Some(
                ColorInfoView {
                    button_mouse_over_background_color: a,
                    button_pressed_background_color: b,
                    button_pressed_border_color: c,
                    button_pressed_text_color: d,
                    highlight_color: e,
                },
            ),
            _ => None,
        }
    }
}

pub open spec fn plugin_info_of(v: Json) -> Option<PluginInfoView> {
    if !record_shape(v, 2) {
        None
    } else {
        match (de_text(record_field(v, "uuid"@, 0)), de_text(record_field(v, "version"@, 1))) {
            (Some(a), Some(b)) => Some(PluginInfoView { uuid: a, version: b }),
            _ => None,
        }
    }
}

/// The registration info a JSON value carries (fields `application`, `colors`,
/// `devicePixelRatio`, `devices`, `plugin`, each defaulting when absent).
pub open spec fn registration_info_of(v: Json) -> Option<RegistrationInfoView> {
    let d = default_registration_info();
    if !record_shape(v, 5) {
        None
    } else {
        match (
            match record_field(v, "application"@, 0) {
                None => Some(d.application),
                Some(x) => application_info_of(x),
            },
            match record_field(v, "colors"@, 1) {
                None => Some(d.colors),
                Some(x) => color_info_of(x),
            },
            de_real(record_field(v, "devicePixelRatio"@, 2)),
            de_devices(record_field(v, "devices"@, 3)),
            match record_field(v, "plugin"@, 4) {
                None => Some(d.plugin),
                Some(x) => plugin_info_of(x),
            },
        ) {
            (Some(a), Some(b), Some(c), Some(e), Some(f)) => Some(
                RegistrationInfoView {
                    application: a,
                    colors: b,
                    device_pixel_ratio: c,
                    devices: e,
                    plugin: f,
                },
            ),
            _ => None,
        }
    }
}

/// The inbound message a JSON value carries: `event` must be text; `action`,
/// `context`, `device`, `id` are optional text, `deviceInfo` optional device
/// metadata, `payload` any value (`null` reads as absent).
pub open spec fn incoming_message_of(v: Json) -> Option<IncomingMessageView> {
    if !record_shape(v, 7) {
        None
    } else {
        match (
            match record_field(v, "event"@, 0) {
                Some(Json::Str(s)) => Some(s),
                _ => None,
            },
            de_opt_text(record_field(v, "action"@, 1)),
            de_opt_text(record_field(v, "context"@, 2)),
            de_opt_text(record_field(v, "device"@, 3)),
            de_opt_text(record_field(v, "id"@, 4)),
            de_opt_device_info(record_field(v, "deviceInfo"@, 5)),
        ) {
            (Some(a), Some(b), Some(c), Some(d), Some(e), Some(f)) => Some(
                IncomingMessageView {
                    event: a,
                    action: b,
                    context: c,
                    device: d,
                    id: e,
                    device_info: f,
                    payload: de_opt_json(record_field(v, "payload"@, 6)),
                },
            ),
            _ => None,
        }
    }
}

impl DeviceSize {
    pub fn from_json(v: &JsonValue) -> (r: Option<DeviceSize>)
        ensures
            r == device_size_of(v@),
    {
        if !record_shape_exec(v, 2) {
            return None;
        }
        match (
            read_i32(record_field_exec(v, "columns", 0)),
            read_i32(record_field_exec(v, "rows", 1)),
        ) {
            (Some(c), Some(r)) => Some(DeviceSize { columns: c, rows: r }),
            _ => None,
        }
    }
}

fn read_device_size(f: Option<&JsonValue>) -> (r: Option<DeviceSize>)
    ensures
        r == de_device_size(opt_model(f)),
{
    match f {
        None => Some(DeviceSize::default()),
        Some(v) => DeviceSize::from_json(v),
    }
}

fn read_opt_device_type(f: Option<&JsonValue>) -> (r: Option<Option<DeviceType>>)
    ensures
        r == de_opt_device_type(opt_model(f)),
{
    match f {
        None => Some(None),
        Some(JsonValue::Null) => Some(None),
        Some(JsonValue::Number(n)) => match read_number_unsigned(*n, 0xffff_ffff) {
            Some(u) => match DeviceType::from_u32(u as u32) {
                Some(d) => Some(Some(d)),
                None => None,
            },
            None => None,
        },
        Some(_) => None,
    }
}

impl DeviceInfo {
    pub fn from_json(v: &JsonValue) -> (r: Option<DeviceInfo>)
        ensures
            match r {
                Some(d) => device_info_of(v@) == Some(d@),
                None => device_info_of(v@) is None,
            },
    {
        if !record_shape_exec(v, 4) {
            return None;
        }
        match (
            read_text(record_field_exec(v, "id", 0)),
            read_text(record_field_exec(v, "name", 1)),
            read_device_size(record_field_exec(v, "size", 2)),
            read_opt_device_type(record_field_exec(v, "type", 3)),
        ) {
            (Some(a), Some(b), Some(c), Some(d)) => Some(
                DeviceInfo { id: a, name: b, size: c, device_type: d },
            ),
            _ => None,
        }
    }
}

fn read_opt_device_info(f: Option<&JsonValue>) -> (r: Option<Option<DeviceInfo>>)
    ensures
        match r {
            Some(Some(d)) => de_opt_device_info(opt_model(f)) == Some(Some(d@)),
            Some(None) => de_opt_device_info(opt_model(f)) == Some(None::<DeviceInfoView>),
            None => de_opt_device_info(opt_model(f)) is None,
        },
{
    match f {
        None => Some(None),
        Some(JsonValue::Null) => Some(None),
        Some(v) => match DeviceInfo::from_json(v) {
            Some(d) => Some(Some(d)),
            None => None,
        },
    }
}

fn read_devices(f: Option<&JsonValue>) -> (r: Option<Vec<DeviceInfo>>)
    ensures
        match r {
            Some(ds) => de_devices(opt_model(f)) == Some(ds@.map_values(|d: DeviceInfo| d@)),
            None => de_devices(opt_model(f)) is None,
        },
{
    match f {
        None => {
            let out: Vec<DeviceInfo> = Vec::new();
            assert(out@.map_values(|d: DeviceInfo| d@) =~= Seq::<DeviceInfoView>::empty());
            Some(out)
        },
        Some(JsonValue::Array(items)) => {
            proof {
                lemma_models_of(items@);
            }
            let ghost ms = models_of(items@);
            assert(opt_model(f) == Some(Json::Array(ms)));
            let mut out: Vec<DeviceInfo> = Vec::new();
            let mut i: usize = 0;
            while i < items.len()
                invariant
                    0 <= i <= items@.len(),
                    ms == models_of(items@),
                    opt_model(f) == Some(Json::Array(ms)),
                    ms.len() == items@.len(),
                    forall|j: int| 0 <= j < items@.len() ==> #[trigger] ms[j] == items@[j]@,
                    out@.len() == i,
                    forall|j: int|
                        0 <= j < i ==> device_info_of(#[trigger] ms[j]) == Some(out@[j]@),
                decreases items@.len() - i,
            {
                match DeviceInfo::from_json(&items[i]) {
                    Some(d) => {
                        out.push(d);
                    },
                    None => {
                        assert(device_info_of(ms[i as int]) is None);
                        return None;
                    },
                }
                i = i + 1;
            }
            assert(opt_model(f) == Some(Json::Array(ms)));
            assert(forall|j: int| 0 <= j < ms.len() ==> #[trigger] device_info_of(ms[j]) is Some);
            assert(out@.map_values(|d: DeviceInfo| d@) =~= Seq::new(
                ms.len(),
                |j: int| device_info_of(ms[j])->0,
            ));
            Some(out)
        },
        Some(_) => None,
    }
}

impl ApplicationInfo {
    pub fn from_json(v: &JsonValue) -> (r: Option<ApplicationInfo>)
        ensures
            match r {
                Some(a) => application_info_of(v@) == Some(a@),
                None => application_info_of(v@) is None,
            },
    {
        if !record_shape_exec(v, 5) {
            return None;
        }
        match (
            read_text(record_field_exec(v, "font", 0)),
            read_text(record_field_exec(v, "language", 1)),
            read_text(record_field_exec(v, "platform", 2)),
            read_text(record_field_exec(v, "platformVersion", 3)),
            read_text(record_field_exec(v, "version", 4)),
        ) {
            (Some(a), Some(b), Some(c), Some(d), Some(e)) => Some(
                ApplicationInfo {
                    font: a,
                    language: b,
                    platform: c,
                    platform_version: d,
                    version: e,
                },
            ),
            _ => None,
        }
    }
}

impl ColorInfo {
    pub fn from_json(v: &JsonValue) -> (r: Option<ColorInfo>)
        ensures
            match r {
                Some(a) => color_info_of(v@) == Some(a@),
                None => color_info_of(v@) is None,
            },
    {
        if !record_shape_exec(v, 5) {
            return None;
        }
        match (
            read_text(record_field_exec(v, "buttonMouseOverBackgroundColor", 0)),
            read_text(record_field_exec(v, "buttonPressedBackgroundColor", 1)),
            read_text(record_field_exec(v, "buttonPressedBorderColor", 2)),
            read_text(record_field_exec(v, "buttonPressedTextColor", 3)),
            read_text(record_field_exec(v, "highlightColor", 4)),
        ) {
            (Some(a), Some(b), Some(c), Some(d), Some(e)) => Some(
                ColorInfo {
                    button_mouse_over_background_color: a,
                    button_pressed_background_color: b,
                    button_pressed_border_color: c,
                    button_pressed_text_color: d,
                    highlight_color: e,
                },
            ),
            _ => None,
        }
    }
}

impl PluginInfo {
    pub fn from_json(v: &JsonValue) -> (r: Option<PluginInfo>)
        ensures
            match r {
                Some(a) => plugin_info_of(v@) == Some(a@),
                None => plugin_info_of(v@) is None,
            },
    {
        if !record_shape_exec(v, 2) {
            return None;
        }
        match (
            read_text(record_field_exec(v, "uuid", 0)),
            read_text(record_field_exec(v, "version", 1)),
        ) {
            (Some(a), Some(b)) => Some(PluginInfo { uuid: a, version: b }),
            _ => None,
        }
    }
}

impl RegistrationInfo {
    /// Read registration info out of the `-info` JSON document.
    pub fn from_json(v: &JsonValue) -> (r: Option<RegistrationInfo>)
        ensures
            match r {
                Some(a) => registration_info_of(v@) == Some(a@),
                None => registration_info_of(v@) is None,
            },
    {
        if !record_shape_exec(v, 5) {
            return None;
        }
        let application = match record_field_exec(v, "application", 0) {
            None => Some(ApplicationInfo::default()),
            Some(x) => ApplicationInfo::from_json(x),
        };
        let colors = match record_field_exec(v, "colors", 1) {
            None => Some(ColorInfo::default()),
            Some(x) => ColorInfo::from_json(x),
        };
        let ratio = read_real(record_field_exec(v, "devicePixelRatio", 2));
        let devices = read_devices(record_field_exec(v, "devices", 3));
        let plugin = match record_field_exec(v, "plugin", 4) {
            None => Some(PluginInfo::default()),
            Some(x) => PluginInfo::from_json(x),
        };
        match (application, colors, ratio, devices, plugin) {
            (Some(a), Some(b), Some(c), Some(e), Some(f)) => Some(
                RegistrationInfo {
                    application: a,
                    colors: b,
                    device_pixel_ratio: c,
                    devices: e,
                    plugin: f,
                },
            ),
            _ => None,
        }
    }
}

impl IncomingMessage {
    /// Read an inbound message out of a JSON document.
    pub fn from_json(v: &JsonValue) -> (r: Option<IncomingMessage>)
        ensures
            match r {
                Some(m) => incoming_message_of(v@) == Some(m@),
                None => incoming_message_of(v@) is None,
            },
    {
        if !record_shape_exec(v, 7) {
            return None;
        }
        let event = match record_field_exec(v, "event", 0) {
            Some(JsonValue::String(s)) => Some(s.clone()),
            _ => None,
        };
        let action = read_opt_text(record_field_exec(v, "action", 1));
        let context = read_opt_text(record_field_exec(v, "context", 2));
        let device = read_opt_text(record_field_exec(v, "device", 3));
        let id = read_opt_text(record_field_exec(v, "id", 4));
        let device_info = read_opt_device_info(record_field_exec(v, "deviceInfo", 5));
        let payload = read_opt_json(record_field_exec(v, "payload", 6));
        match (event, action, context, device, id, device_info) {
            (Some(a), Some(b), Some(c), Some(d), Some(e), Some(f)) => Some(
                IncomingMessage {
                    event: a,
                    action: b,
                    context: c,
                    device: d,
                    id: e,
                    device_info: f,
                    payload,
                },
            ),
            _ => None,
        }
    }
}

} // verus!
