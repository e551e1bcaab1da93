//! The names that most users of the crate need, in one place.

pub use crate::json::{DecodeError, FloatBits, Json, Number};
pub use crate::ui::behavior::{ConnectionBehavior, DisplaySchema, ExtendableInputs, PluginBehavior};
pub use crate::ui::schema::{ConfigField, FieldType, FileMode, UISchema};
pub use crate::{
    DeviceDriver, EventLogger, Plugin, PluginContext, PluginError, PluginId, PluginMeta, Port,
    PortId, ProcessingUnit,
};
