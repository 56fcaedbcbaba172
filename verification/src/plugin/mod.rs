//! The host: actions, the registry of action types, and event routing.
pub mod action;
pub mod error;
pub mod registry;
pub mod dispatch;
pub mod manifest;
pub mod logging;
