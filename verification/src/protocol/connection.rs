//! The decisions of the plugin's connection to Stream Deck: where to connect,
//! how to register, and what each turn of the read/write loop does.
use vstd::prelude::*;

use crate::json::{Json, JsonValue};
use crate::protocol::commands::{object_of, CommandSender};
use crate::protocol::events::{incoming_message_of, IncomingMessage, IncomingMessageView, RegistrationInfo};
use crate::protocol::registration::RegistrationArguments;
use crate::text::{decimal_text, i32_to_text, is_blank, push_str, trimmed_is_empty};

verus! {

/// `ws://127.0.0.1:` followed by the port in decimal.
pub open spec fn socket_url_text(port: u16) -> Seq<char> {
    "ws://127.0.0.1:"@ + decimal_text(port as int)
}

/// The registration message: `{ "event": <register event>, "uuid": <plugin UUID> }`.
pub open spec fn registration_json(register_event: Seq<char>, plugin_uuid: Seq<char>) -> Json {
    Json::Object(seq![("event"@, Json::Str(register_event)), ("uuid"@, Json::Str(plugin_uuid))])
}

/// What a turn of the connection loop has observed.
pub enum ConnectionEvent {
    /// The cancellation token fired.
    Cancelled,
    /// The socket closed.
    Closed,
    /// A text frame arrived: its JSON document, or `None` when it was not JSON.
    Frame(Option<JsonValue>),
    /// The outbound queue yielded: a command's text, or `None` when it is empty
    /// and closed.
    Outbound(Option<String>),
}

/// What the connection loop does next.
pub enum ConnectionAction {
    /// Leave the loop.
    Stop,
    /// Hand the message to the plugin.
    Deliver(IncomingMessage),
    /// Report a frame that is not an inbound message, and go on.
    Unreadable,
    /// Go on without doing anything.
    Skip,
    /// Send this text over the socket.
    Send(String),
}

/// What a frame's document comes to: the message it holds, when it is one and
/// its event name is not blank; `Skip` for a message with a blank event name;
/// `Unreadable` otherwise.
pub open spec fn frame_action(document: Option<Json>) -> ConnectionActionView {
    match document {
        None => ConnectionActionView::Unreadable,
        Some(d) => match incoming_message_of(d) {
            None => ConnectionActionView::Unreadable,
            Some(m) => if is_blank(m.event) {
                ConnectionActionView::Skip
            } else {
                ConnectionActionView::Deliver(m)
            },
        },
    }
}

pub enum ConnectionActionView {
    Stop,
    Deliver(IncomingMessageView),
    Unreadable,
    Skip,
    Send(Seq<char>),
}

impl View for ConnectionAction {
    type V = ConnectionActionView;

    open spec fn view(&self) -> ConnectionActionView {
        match self {
            ConnectionAction::Stop => ConnectionActionView::Stop,
            ConnectionAction::Deliver(m) => ConnectionActionView::Deliver(m@),
            ConnectionAction::Unreadable => ConnectionActionView::Unreadable,
            ConnectionAction::Skip => ConnectionActionView::Skip,
            ConnectionAction::Send(s) => ConnectionActionView::Send(s@),
        }
    }
}

/// The action a loop event calls for.
pub open spec fn connection_step(event: ConnectionEvent) -> ConnectionActionView {
    match event {
        ConnectionEvent::Cancelled => ConnectionActionView::Stop,
        ConnectionEvent::Closed => ConnectionActionView::Stop,
        ConnectionEvent::Frame(document) => frame_action(
            match document {
                Some(d) => Some(d@),
                None => None,
            },
        ),
        ConnectionEvent::Outbound(next) => match next {
            Some(text) => ConnectionActionView::Send(text@),
            None => ConnectionActionView::Skip,
        },
    }
}

/// Decide what to do with one event of the connection loop.
pub fn next_action(event: ConnectionEvent) -> (r: ConnectionAction)
    ensures
        r@ == connection_step(event),
{
    match event {
        ConnectionEvent::Cancelled => ConnectionAction::Stop,
        ConnectionEvent::Closed => ConnectionAction::Stop,
        ConnectionEvent::Frame(document) => match document {
            None => ConnectionAction::Unreadable,
            Some(d) => match IncomingMessage::from_json(&d) {
                None => ConnectionAction::Unreadable,
                Some(m) => if trimmed_is_empty(m.event.as_str()) {
                    ConnectionAction::Skip
                } else {
                    ConnectionAction::Deliver(m)
                },
            },
        },
        ConnectionEvent::Outbound(next) => match next {
            Some(text) => ConnectionAction::Send(text),
            None => ConnectionAction::Skip,
        },
    }
}

/// The launch arguments of a connection, and what follows from them.
pub struct StreamDeckConnection {
    arguments: RegistrationArguments,
}

impl View for StreamDeckConnection {
    type V = crate::protocol::registration::RegistrationArgumentsView;

    closed spec fn view(&self) -> crate::protocol::registration::RegistrationArgumentsView {
        self.arguments@
    }
}

impl StreamDeckConnection {
    /// A connection for these launch arguments.
    pub fn new(arguments: RegistrationArguments) -> (r: StreamDeckConnection)
        ensures
            r@ == arguments@,
    {
        StreamDeckConnection { arguments }
    }

    /// Plugin UUID from launch arguments.
    pub fn plugin_uuid(&self) -> (r: &str)
        ensures
            r@ == self@.plugin_uuid,
    {
        self.arguments.plugin_uuid.as_str()
    }

    /// Parsed `-info` payload.
    pub fn info(&self) -> (r: &RegistrationInfo)
        ensures
            r@ == self@.info,
    {
        &self.arguments.info
    }

    /// A command builder for this plugin.
    pub fn sender(&self) -> (r: CommandSender)
        ensures
            r@ == self@.plugin_uuid,
    {
        CommandSender::new(self.arguments.plugin_uuid.as_str())
    }

    /// The address of the Stream Deck WebSocket server.
    pub fn socket_url(&self) -> (r: String)
        ensures
            r@ == socket_url_text(self@.port),
    {
        let mut url = "ws://127.0.0.1:".to_owned();
        let port = i32_to_text(self.arguments.port as i32);
        push_str(&mut url, port.as_str());
        url
    }

    /// The first message sent after connecting.
    pub fn registration_message(&self) -> (r: JsonValue)
        ensures
            r@ == registration_json(self@.register_event, self@.plugin_uuid),
    {
        let entries = vec![
            ("event".to_owned(), JsonValue::String(self.arguments.register_event.clone())),
            ("uuid".to_owned(), JsonValue::String(self.arguments.plugin_uuid.clone())),
        ];
        let r = object_of(entries);
        assert(Seq::new(entries@.len(), |i: int| (entries@[i].0@, entries@[i].1@)) =~= seq![
            ("event"@, Json::Str(self@.register_event)),
            ("uuid"@, Json::Str(self@.plugin_uuid)),
        ]);
        r
    }
}

} // verus!
