//! The contract between a host application and its plugins: how a plugin is
//! described, configured and driven, in process through the [`Plugin`] trait
//! and across a foreign-function boundary through owned handles and buffers.

pub mod json;
pub mod meta;
pub mod prelude;
pub mod text;
pub mod ui;

use crate::json::{FloatBits, Json, Members};
use crate::text::{lossy_text, string_from_utf8_lossy, string_into_bytes};
use crate::ui::behavior::{default_behavior, ConnectionBehavior, PluginBehavior};
use crate::ui::schema::UISchema;
use vstd::prelude::*;
use vstd::utf8::encode_utf8;

verus! {

/// Names one plugin instance within a host session.
#[derive(Debug, Clone, Copy, PartialEq, Eq, Hash)]
pub struct PluginId(pub u64);

/// Names an input or an output of a plugin.
#[derive(Debug, Clone, PartialEq, Eq, Hash)]
pub struct PortId(pub String);

/// An input or an output of a plugin.
#[derive(Debug, Clone)]
pub struct Port {
    pub id: PortId,
}

/// What describes a plugin type: its display name, the variables that are
/// fixed, and the variables that have a default and can be overridden.
#[derive(Debug, Clone)]
pub struct PluginMeta {
    pub name: String,
    pub fixed_vars: Vec<(String, Json)>,
    pub default_vars: Vec<(String, Json)>,
}

impl View for PortId {
    type V = Seq<char>;

    open spec fn view(&self) -> Seq<char> {
        self.0@
    }
}

impl View for Port {
    type V = Seq<char>;

    /// A port is its name.
    open spec fn view(&self) -> Seq<char> {
        self.id@
    }
}

/// The mathematical value of a [`PluginMeta`].
pub struct PluginMetaView {
    pub name: Seq<char>,
    pub fixed_vars: Members,
    pub default_vars: Members,
}

impl View for PluginMeta {
    type V = PluginMetaView;

    open spec fn view(&self) -> PluginMetaView {
        PluginMetaView {
            name: self.name@,
            fixed_vars: self.fixed_vars.deep_view(),
            default_vars: self.default_vars.deep_view(),
        }
    }
}

/// What the host hands to one processing step: the tick counter and the
/// period in seconds since the previous tick.
#[derive(Debug)]
pub struct PluginContext {
    pub tick: u64,
    pub period_seconds: FloatBits,
}

impl Default for PluginContext {
    /// Tick 0 and a period of zero seconds.
    fn default() -> (r: PluginContext)
        ensures
            r.tick == 0,
            r.period_seconds.bits == 0,
    {
        PluginContext { tick: 0, period_seconds: FloatBits { bits: 0 } }
    }
}

/// The one kind of failure that a plugin reports.
#[derive(Debug, Clone, Copy, PartialEq, Eq)]
pub enum PluginError {
    ProcessingFailed,
}

impl PluginError {
    /// The message of the error.
    pub fn message(&self) -> (r: String)
        ensures
            r@ == "processing failed"@,
    {
        "processing failed".to_owned()
    }
}

/// A processing unit that a host drives in process.
pub trait Plugin: Send {
    fn id(&self) -> PluginId;

    fn meta(&self) -> &PluginMeta;

    fn inputs(&self) -> &[Port];

    fn outputs(&self) -> &[Port];

    /// Advances the plugin by one step.
    fn process(&mut self, ctx: &mut PluginContext) -> Result<(), PluginError>;

    /// The configuration schema; a plugin that has none returns `None`.
    fn ui_schema(&self) -> (r: Option<UISchema>)
        default_ensures
            r is None,
    {
        None
    }

    fn behavior(&self) -> (r: PluginBehavior)
        default_ensures
            r@ == default_behavior(),
    {
        PluginBehavior::default()
    }

    fn connection_behavior(&self) -> (r: ConnectionBehavior)
        default_ensures
            r == (ConnectionBehavior { dependent: false }),
    {
        ConnectionBehavior::default()
    }

    /// Told that the host added an input.
    fn on_input_added(&mut self, _port: &str) -> (r: Result<(), PluginError>)
        default_ensures
            r is Ok,
            &*final(self) == &*old(self),
    {
        Ok(())
    }

    /// Told that the host removed an input.
    fn on_input_removed(&mut self, _port: &str) -> (r: Result<(), PluginError>)
        default_ensures
            r is Ok,
            &*final(self) == &*old(self),
    {
        Ok(())
    }
}

/// A plugin that stands for a device.
pub trait DeviceDriver: Plugin {
    fn open(&mut self) -> Result<(), PluginError>;

    fn close(&mut self) -> Result<(), PluginError>;
}

/// A plugin that transforms its inputs into its outputs.
pub trait ProcessingUnit: Plugin {

}

/// A plugin that records what it is given.
pub trait EventLogger: Plugin {
    fn flush(&mut self) -> Result<(), PluginError>;
}

/// The name under which a plugin module offers its table of entry points.
pub const RTSYN_PLUGIN_API_SYMBOL: &'static str = "rtsyn_plugin_api";

/// An owned byte buffer on its way across the boundary. It either holds bytes
/// or is the null buffer, which holds none; whoever has the value owns the
/// bytes, and giving the value up releases them.
#[derive(Debug)]
pub struct PluginString {
    pub data: Option<Vec<u8>>,
}

impl View for PluginString {
    type V = Option<Seq<u8>>;

    open spec fn view(&self) -> Option<Seq<u8>> {
        match self.data {
            Some(bytes) => Some(bytes@),
            None => None,
        }
    }
}

/// The text that a buffer unpacks to: the lossy decoding of its bytes, and
/// the empty text for the null buffer.
pub open spec fn unpacked(buffer: Option<Seq<u8>>) -> Seq<char> {
    match buffer {
        Some(bytes) => lossy_text(bytes),
        None => Seq::empty(),
    }
}

impl PluginString {
    /// Packs a string: the buffer takes over the string's bytes.
    pub fn from_string(value: String) -> (r: PluginString)
        ensures
            r@ == Some(encode_utf8(value@)),
    {
        PluginString { data: Some(string_into_bytes(value)) }
    }

    /// The null buffer.
    pub fn null() -> (r: PluginString)
        ensures
            r@ is None,
    {
        PluginString { data: None }
    }

    /// Whether this is the null buffer.
    pub fn is_null(&self) -> (r: bool)
        ensures
            r == (self@ is None),
    {
        self.data.is_none()
    }

    /// The number of bytes held; 0 for the null buffer.
    pub fn len(&self) -> (r: usize)
        ensures
            r == match self@ {
                Some(bytes) => bytes.len(),
                None => 0,
            },
    {
        match &self.data {
            Some(bytes) => bytes.len(),
            None => 0,
        }
    }

    /// Unpacks the buffer as text. Bytes that are not valid UTF-8 are decoded
    /// lossily; the call never fails.
    pub fn into_string(self) -> (r: String)
        ensures
            r@ == unpacked(self@),
    {
        match self.data {
            Some(bytes) => string_from_utf8_lossy(bytes.as_slice()),
            None => String::new(),
        }
    }
}

/// Releases a buffer and the bytes it holds. Releasing the null buffer does
/// nothing.
pub fn rtsyn_plugin_string_free(value: PluginString) {
    let _ = value;
}

/// Packing any text into a buffer and unpacking the buffer gives the text
/// back.
pub proof fn lemma_transfer_round_trip(text: Seq<char>)
    ensures
        unpacked(Some(encode_utf8(text))) == text,
{
    crate::text::lemma_text_round_trip(text);
}

} // verus!
