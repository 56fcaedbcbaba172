//! The wire layer: launch arguments, inbound events, payloads and outbound commands.
pub mod error;
pub mod events;
pub mod payload;
pub mod registration;
pub mod encoding;
pub mod commands;
pub mod connection;
