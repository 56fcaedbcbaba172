//! Protocol and transport failures.
use vstd::prelude::*;

verus! {

/// Transport-specific error wrapper: the transport's own error, as its message.
#[derive(Debug)]
pub struct TransportError(pub String);

impl TransportError {
    /// Create a transport error from a message.
    pub fn new(message: &str) -> (r: TransportError)
        ensures
            r.0@ == message@,
    {
        TransportError(message.to_owned())
    }

    /// The text this error reads as: its message.
    pub fn message(&self) -> (r: String)
        ensures
            r@ == self.0@,
    {
        self.0.clone()
    }
}

/// Protocol and transport failures.
#[derive(Debug)]
pub enum Error {
    /// Launch arguments from Stream Deck were missing or invalid.
    Registration(String),
    /// A JSON document could not be read or written; the message says why.
    Json(String),
    /// The outbound command channel was closed.
    ChannelClosed,
    /// The WebSocket transport failed.
    Transport(TransportError),
    /// A filesystem operation failed; the message says why.
    Io(String),
}

/// The text each error reads as: the message it carries, the transport's
/// message, or `command channel is closed`.
pub open spec fn error_message(e: Error) -> Seq<char> {
    match e {
        Error::Registration(m) => m@,
        Error::Json(m) => m@,
        Error::ChannelClosed => "command channel is closed"@,
        Error::Transport(t) => t.0@,
        Error::Io(m) => m@,
    }
}

impl Error {
    /// The text this error reads as.
    pub fn message(&self) -> (r: String)
        ensures
            r@ == error_message(*self),
    {
        match self {
            Error::Registration(m) => m.clone(),
            Error::Json(m) => m.clone(),
            Error::ChannelClosed => "command channel is closed".to_owned(),
            Error::Transport(t) => t.message(),
            Error::Io(m) => m.clone(),
        }
    }
}

} // verus!
