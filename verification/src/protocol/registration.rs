//! Launch-argument parsing.
use vstd::prelude::*;

use crate::json::JsonValue;
use crate::protocol::error::Error;
use crate::protocol::events::{
    default_registration_info, registration_info_of, RegistrationInfo, RegistrationInfoView,
};
use crate::text::{begins_with, is_blank, parse_u16, starts_with_char, str_eq, trimmed_is_empty, u16_text};

verus! {

/// Command-line arguments Stream Deck supplies when launching a native plugin.
pub struct RegistrationArguments {
    /// WebSocket port.
    pub port: u16,
    /// Plugin UUID.
    pub plugin_uuid: String,
    /// Registration event name, typically `registerPlugin`.
    pub register_event: String,
    /// Raw `-info` JSON.
    pub info_json: String,
    /// Parsed `-info` payload.
    pub info: RegistrationInfo,
}

pub struct RegistrationArgumentsView {
    pub port: u16,
    pub plugin_uuid: Seq<char>,
    pub register_event: Seq<char>,
    pub info_json: Seq<char>,
    pub info: RegistrationInfoView,
}

impl View for RegistrationArguments {
    type V = RegistrationArgumentsView;

    open spec fn view(&self) -> RegistrationArgumentsView {
        RegistrationArgumentsView {
            port: self.port,
            plugin_uuid: self.plugin_uuid@,
            register_event: self.register_event@,
            info_json: self.info_json@,
            info: self.info@,
        }
    }
}

/// What the scan of the launch arguments has collected so far.
pub struct LaunchScan {
    pub port: u16,
    pub plugin_uuid: Seq<char>,
    pub register_event: Seq<char>,
    pub info_json: Seq<char>,
}

pub open spec fn empty_scan() -> LaunchScan {
    LaunchScan {
        port: 0,
        plugin_uuid: Seq::empty(),
        register_event: Seq::empty(),
        info_json: Seq::empty(),
    }
}

/// Scans the arguments from position `index`: an argument that does not begin
/// with `-` is skipped; one that does takes the next argument as its value
/// (a key with no value after it ends the scan). `-port`, `-pluginUUID`,
/// `-registerEvent` and `-info` are recorded, the last occurrence winning; other
/// keys are ignored. `None` when a `-port` value is not a `u16`.
pub open spec fn scan_launch_arguments(args: Seq<Seq<char>>, index: int, acc: LaunchScan) -> Option<
    LaunchScan,
>
    decreases args.len() - index,
{
    if index < 0 || index >= args.len() {
        Some(acc)
    } else if !begins_with(args[index], '-') {
        scan_launch_arguments(args, index + 1, acc)
    } else if index + 1 >= args.len() {
        Some(acc)
    } else {
        let key = args[index];
        let value = args[index + 1];
        if key == "-port"@ {
            match u16_text(value) {
                Some(p) => scan_launch_arguments(args, index + 2, LaunchScan { port: p, ..acc }),
                None => None,
            }
        } else if key == "-pluginUUID"@ {
            scan_launch_arguments(args, index + 2, LaunchScan { plugin_uuid: value, ..acc })
        } else if key == "-registerEvent"@ {
            scan_launch_arguments(args, index + 2, LaunchScan { register_event: value, ..acc })
        } else if key == "-info"@ {
            scan_launch_arguments(args, index + 2, LaunchScan { info_json: value, ..acc })
        } else {
            scan_launch_arguments(args, index + 2, acc)
        }
    }
}

pub open spec fn arg_views(args: Seq<String>) -> Seq<Seq<char>> {
    args.map_values(|s: String| s@)
}

pub open spec fn port_message() -> Seq<char> {
    "Stream Deck did not provide a valid -port argument."@
}

pub open spec fn uuid_message() -> Seq<char> {
    "Stream Deck did not provide a -pluginUUID argument."@
}

pub open spec fn register_event_message() -> Seq<char> {
    "Stream Deck did not provide a -registerEvent argument."@
}

/// The registration error `e` carries exactly the message `m`.
pub open spec fn is_registration_error(e: Error, m: Seq<char>) -> bool {
    e matches Error::Registration(s) && s@ == m
}

/// The info payload that a launch with `info_json` and the given decoded document carries:
/// a blank `-info` gives the default; otherwise the document read as registration
/// info, or the default when it cannot be read.
pub open spec fn resolved_info(info_json: Seq<char>, document: Option<crate::json::Json>) -> RegistrationInfoView {
    if is_blank(info_json) {
        default_registration_info()
    } else {
        match document {
            Some(d) => match registration_info_of(d) {
                Some(info) => info,
                None => default_registration_info(),
            },
            None => default_registration_info(),
        }
    }
}

impl RegistrationArguments {
    /// Parse `-port`, `-pluginUUID`, `-registerEvent`, and `-info`.
    ///
    /// The `info` field holds the default payload; `with_info_document` reads the
    /// `-info` JSON into it once the text has been parsed into a document.
    pub fn parse(args: &Vec<String>) -> (r: Result<RegistrationArguments, Error>)
        ensures
            match scan_launch_arguments(arg_views(args@), 0, empty_scan()) {
                None => r matches Err(e) && is_registration_error(e, port_message()),
                Some(s) => if s.port == 0 {
                    r matches Err(e) && is_registration_error(e, port_message())
                } else if is_blank(s.plugin_uuid) {
                    r matches Err(e) && is_registration_error(e, uuid_message())
                } else if is_blank(s.register_event) {
                    r matches Err(e) && is_registration_error(e, register_event_message())
                } else {
                    r matches Ok(a) && a@ == (RegistrationArgumentsView {
                        port: s.port,
                        plugin_uuid: s.plugin_uuid,
                        register_event: s.register_event,
                        info_json: s.info_json,
                        info: default_registration_info(),
                    })
                },
            },
    {
        let ghost argv = arg_views(args@);
        let mut port: u16 = 0;
        let mut plugin_uuid = String::new();
        let mut register_event = String::new();
        let mut info_json = String::new();
        let mut index: usize = 0;
        while index < args.len()
            invariant
                argv == arg_views(args@),
                argv.len() == args@.len(),
                0 <= index <= args@.len(),
                scan_launch_arguments(argv, 0, empty_scan()) == scan_launch_arguments(
                    argv,
                    index as int,
                    LaunchScan {
                        port: port,
                        plugin_uuid: plugin_uuid@,
                        register_event: register_event@,
                        info_json: info_json@,
                    },
                ),
            ensures
                scan_launch_arguments(argv, 0, empty_scan()) == Some(
                    LaunchScan {
                        port: port,
                        plugin_uuid: plugin_uuid@,
                        register_event: register_event@,
                        info_json: info_json@,
                    },
                ),
            decreases args@.len() - index,
        {
            let key = args[index].as_str();
            assert(argv[index as int] == key@);
            if !starts_with_char(key, '-') {
                index = index + 1;
                continue;
            }
            if index + 1 >= args.len() {
                break;
            }
            let value = args[index + 1].as_str();
            assert(argv[index + 1] == value@);
            index = index + 2;
            if str_eq(key, "-port") {
                match parse_u16(value) {
                    Some(p) => {
                        port = p;
                    },
                    None => {
                        return Err(
                            Error::Registration(
                                "Stream Deck did not provide a valid -port argument.".to_owned(),
                            ),
                        );
                    },
                }
            } else if str_eq(key, "-pluginUUID") {
                plugin_uuid = value.to_owned();
            } else if str_eq(key, "-registerEvent") {
                register_event = value.to_owned();
            } else if str_eq(key, "-info") {
                info_json = value.to_owned();
            }
        }
        if port == 0 {
            return Err(
                Error::Registration("Stream Deck did not provide a valid -port argument.".to_owned()),
            );
        }
        if trimmed_is_empty(plugin_uuid.as_str()) {
            return Err(
                Error::Registration("Stream Deck did not provide a -pluginUUID argument.".to_owned()),
            );
        }
        if trimmed_is_empty(register_event.as_str()) {
            return Err(
                Error::Registration(
                    "Stream Deck did not provide a -registerEvent argument.".to_owned(),
                ),
            );
        }
        let info = RegistrationInfo::default();
        Ok(RegistrationArguments { port, plugin_uuid, register_event, info_json, info })
    }

    /// Fill `info` from the JSON document that the `-info` text parses to (`None`
    /// when it is not JSON): a blank `-info` keeps the default payload, and so does
    /// a document that does not read as registration info.
    pub fn with_info_document(self, document: Option<&JsonValue>) -> (r: RegistrationArguments)
        ensures
            r@ == (RegistrationArgumentsView {
                info: resolved_info(self@.info_json, crate::json::opt_model(document)),
                ..self@
            }),
    {
        let RegistrationArguments { port, plugin_uuid, register_event, info_json, info: _ } = self;
        let info = if trimmed_is_empty(info_json.as_str()) {
            RegistrationInfo::default()
        } else {
            match document {
                Some(d) => match RegistrationInfo::from_json(d) {
                    Some(i) => i,
                    None => RegistrationInfo::default(),
                },
                None => RegistrationInfo::default(),
            }
        };
        RegistrationArguments { port, plugin_uuid, register_event, info_json, info }
    }
}

} // verus!
