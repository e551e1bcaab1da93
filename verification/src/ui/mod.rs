//! Describing a plugin to a host: its behavior and its configuration schema.

pub mod behavior;
pub mod ffi;
pub mod schema;

pub use behavior::{ConnectionBehavior, DisplaySchema, ExtendableInputs, PluginBehavior};
pub use schema::{ConfigField, FieldType, FileMode, UISchema};
