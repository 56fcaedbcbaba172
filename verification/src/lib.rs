//! A Stream Deck plugin SDK: the plugin WebSocket protocol, and the host that
//! routes its events to actions.
pub mod decode;
pub mod json;
pub mod protocol;
pub mod text;
pub mod plugin;
pub mod keyed;
pub mod sample;
pub mod laws;
pub mod field_laws;
