//! Framework-level errors.
use vstd::prelude::*;

verus! {

/// Framework-level errors.
#[derive(Debug)]
pub enum Error {
    /// Protocol or transport failure.
    Protocol(crate::protocol::error::Error),
    /// A JSON document could not be read or written; the message says why.
    Json(String),
    /// A filesystem operation failed; the message says why.
    Io(String),
    /// Manifest / registration mismatch.
    Manifest(String),
    /// Shared state downcast failed.
    State(String),
}

/// The text each error reads as: a protocol error's text, or the message it carries.
pub open spec fn host_error_message(e: Error) -> Seq<char> {
    match e {
        Error::Protocol(p) => crate::protocol::error::error_message(p),
        Error::Json(m) => m@,
        Error::Io(m) => m@,
        Error::Manifest(m) => m@,
        Error::State(m) => m@,
    }
}

impl Error {
    /// The text this error reads as.
    pub fn message(&self) -> (r: String)
        ensures
            r@ == host_error_message(*self),
    {
        match self {
            Error::Protocol(p) => p.message(),
            Error::Json(m) => m.clone(),
            Error::Io(m) => m.clone(),
            Error::Manifest(m) => m.clone(),
            Error::State(m) => m.clone(),
        }
    }
}

} // verus!
