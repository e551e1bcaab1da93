//! Building schemas and fields from the far side of the boundary.
//!
//! What crosses the boundary is modelled by owned values. A handle either
//! holds its value or is null; a text argument is the bytes before its
//! terminator, or `None` for a null pointer. An adapter reads the texts it is
//! given and keeps copies; a handle that it hands out belongs to the caller
//! until the caller frees it or attaches it.

use crate::json::{lemma_object_view, number_json, one, FloatBits, Json, JsonView, Number};
use crate::text::{str_from_utf8, strict_text, terminated, terminated_bytes};
use crate::ui::behavior::{
    encode_behavior, ExtendableInputs, ExtendableInputsView, PluginBehavior, PluginBehaviorView,
};
use crate::ui::schema::{
    encode_schema, int_json, plain_text, ConfigField, ConfigFieldView, FieldTypeView, FileMode,
    UISchema, UISchemaView, DEFAULT_FLOAT_STEP_BITS,
};
use vstd::prelude::*;

verus! {

/// The handle of a schema: null, or the owner of one schema.
#[derive(Debug)]
pub struct RTSynUISchema {
    pub schema: Option<UISchema>,
}

/// The handle of a field: null, or the owner of one field.
#[derive(Debug)]
pub struct RTSynConfigField {
    pub field: Option<ConfigField>,
}

/// The handle of a text that goes out as a terminated string: null, or the
/// owner of the text's bytes and their terminator.
#[derive(Debug)]
pub struct RTSynString {
    pub bytes: Option<Vec<u8>>,
}

impl View for RTSynString {
    type V = Option<Seq<u8>>;

    open spec fn view(&self) -> Option<Seq<u8>> {
        match self.bytes {
            Some(b) => Some(b@),
            None => None,
        }
    }
}

impl View for RTSynUISchema {
    type V = Option<UISchemaView>;

    open spec fn view(&self) -> Option<UISchemaView> {
        match self.schema {
            Some(s) => Some(s@),
            None => None,
        }
    }
}

impl View for RTSynConfigField {
    type V = Option<ConfigFieldView>;

    open spec fn view(&self) -> Option<ConfigFieldView> {
        match self.field {
            Some(f) => Some(f@),
            None => None,
        }
    }
}

pub const RTSYN_FILE_MODE_OPEN: i32 = 0;

pub const RTSYN_FILE_MODE_SAVE: i32 = 1;

pub const RTSYN_FILE_MODE_FOLDER: i32 = 2;

pub const RTSYN_FIELD_INTEGER: i32 = 0;

pub const RTSYN_FIELD_FLOAT: i32 = 1;

pub const RTSYN_FIELD_TEXT: i32 = 2;

pub const RTSYN_FIELD_BOOLEAN: i32 = 3;

pub const RTSYN_FIELD_FILEPATH: i32 = 4;

pub const RTSYN_FIELD_DYNAMIC_LIST: i32 = 5;

/// The text of an argument: none for a null pointer and for bytes that are
/// not valid UTF-8.
pub open spec fn arg_text(arg: Option<&[u8]>) -> Option<Seq<char>> {
    match arg {
        Some(bytes) => strict_text(bytes@),
        None => None,
    }
}

/// The key and the label of a field, where both arguments are texts.
pub open spec fn arg_names(key: Option<&[u8]>, label: Option<&[u8]>) -> Option<
    (Seq<char>, Seq<char>),
> {
    match (arg_text(key), arg_text(label)) {
        (Some(k), Some(l)) => Some((k, l)),
        _ => None,
    }
}

/// A field with the given text as its default value, where there is one.
pub open spec fn with_text_default(f: ConfigFieldView, text: Option<Seq<char>>) -> ConfigFieldView {
    match text {
        Some(t) => f.default_value(JsonView::String(t)),
        None => f,
    }
}

/// The dialog that a mode number stands for; a number that stands for none
/// means the dialog to open a file.
pub open spec fn file_mode_of(mode: i32) -> FileMode {
    if mode == RTSYN_FILE_MODE_SAVE {
        FileMode::SaveFile
    } else if mode == RTSYN_FILE_MODE_FOLDER {
        FileMode::SelectFolder
    } else {
        FileMode::OpenFile
    }
}

/// The pattern that an `auto` plugin gets where the caller names none.
pub open spec fn default_pattern() -> Seq<char> {
    "in_{}"@
}

/// The way inputs can grow that a number stands for: 0 fixed, 1 manual, 2
/// automatic with the given pattern or, without one, the default pattern. A
/// number that stands for none means fixed.
pub open spec fn extendable_inputs_of(kind: i32, pattern: Option<&[u8]>) -> ExtendableInputsView {
    if kind == 1 {
        ExtendableInputsView::Manual
    } else if kind == 2 {
        match arg_text(pattern) {
            Some(p) => ExtendableInputsView::Auto { pattern: p },
            None => ExtendableInputsView::Auto { pattern: default_pattern() },
        }
    } else {
        ExtendableInputsView::Fixed
    }
}

/// The encoding that answers a behavior query: the behavior under `behavior`,
/// and whether the plugin depends on a connection under `connection_dependent`.
pub open spec fn encode_behavior_query(behavior: PluginBehaviorView, dependent: bool) -> JsonView {
    JsonView::Object(
        one("behavior"@, encode_behavior(behavior)) + one(
            "connection_dependent"@,
            JsonView::Bool(dependent),
        ),
    )
}

/// A copy of the text of an argument.
fn read_text(arg: Option<&[u8]>) -> (r: Option<String>)
    ensures
        r.deep_view() == arg_text(arg),
{
    match arg {
        Some(bytes) => match str_from_utf8(bytes) {
            Some(s) => Some(s.to_owned()),
            None => None,
        },
        None => None,
    }
}

/// A new handle that owns an empty schema.
pub fn rtsyn_ui_schema_new() -> (r: RTSynUISchema)
    ensures
        r@ == Some(UISchemaView { fields: Seq::empty() }),
{
    RTSynUISchema { schema: Some(UISchema::new()) }
}

/// Frees a schema handle and what it owns. Freeing a null handle does nothing.
pub fn rtsyn_ui_schema_free(schema: RTSynUISchema) {
    let _ = schema;
}

/// Attaches a field to a schema, after the fields the schema has. The schema
/// takes the field over and the field handle becomes null. Where either handle
/// is null nothing changes, and the field stays with the caller.
pub fn rtsyn_ui_schema_add_field(schema: &mut RTSynUISchema, field: &mut RTSynConfigField)
    ensures
        match (old(schema)@, old(field)@) {
            (Some(s), Some(f)) => final(schema)@ == Some(UISchemaView { fields: s.fields.push(f) })
                && final(field)@ is None,
            _ => final(schema)@ == old(schema)@ && final(field)@ == old(field)@,
        },
{
    if schema.schema.is_none() || field.field.is_none() {
        return ;
    }
    let f = field.field.take().unwrap();
    let s = schema.schema.take().unwrap();
    schema.schema = Some(s.field(f));
}

/// The encoding of the schema that a handle owns; none for a null handle.
pub fn rtsyn_ui_schema_to_json(schema: &RTSynUISchema) -> (r: Option<Json>)
    ensures
        r.deep_view() == match schema@ {
            Some(s) => Some(encode_schema(s)),
            None => None,
        },
{
    match &schema.schema {
        Some(s) => Some(s.to_json()),
        None => None,
    }
}

/// A handle to a new text field. The handle is null where the key or the
/// label is a null pointer or not valid UTF-8. A default value that is a null
/// pointer or not valid UTF-8 is passed over.
pub fn rtsyn_ui_field_text(
    key: Option<&[u8]>,
    label: Option<&[u8]>,
    default_value: Option<&[u8]>,
) -> (r: RTSynConfigField)
    ensures
        r@ == match arg_names(key, label) {
            Some((k, l)) => Some(
                with_text_default(
                    ConfigFieldView::new(k, l, plain_text()),
                    arg_text(default_value),
                ),
            ),
            None => None,
        },
{
    let key = match read_text(key) {
        Some(k) => k,
        None => {
            return RTSynConfigField { field: None };
        },
    };
    let label = match read_text(label) {
        Some(l) => l,
        None => {
            return RTSynConfigField { field: None };
        },
    };
    let mut field = ConfigField::text(key.as_str(), label.as_str());
    if let Some(text) = read_text(default_value) {
        field = field.default_value(Json::String(text));
    }
    RTSynConfigField { field: Some(field) }
}

/// A handle to a new integer field with the given bounds and default value.
/// The handle is null where the key or the label is a null pointer or not
/// valid UTF-8.
pub fn rtsyn_ui_field_integer(
    key: Option<&[u8]>,
    label: Option<&[u8]>,
    default_value: i64,
    min: i64,
    max: i64,
) -> (r: RTSynConfigField)
    ensures
        r@ == match arg_names(key, label) {
            Some((k, l)) => Some(
                ConfigFieldView::new(
                    k,
                    l,
                    FieldTypeView::Integer { min: Some(min), max: Some(max), step: 1 },
                ).default_value(int_json(default_value)),
            ),
            None => None,
        },
{
    let key = match read_text(key) {
        Some(k) => k,
        None => {
            return RTSynConfigField { field: None };
        },
    };
    let label = match read_text(label) {
        Some(l) => l,
        None => {
            return RTSynConfigField { field: None };
        },
    };
    let field = ConfigField::integer(key.as_str(), label.as_str()).min(min).max(max).default_value(
        Json::integer(default_value),
    );
    RTSynConfigField { field: Some(field) }
}

/// A handle to a new float field with the given bounds and default value,
/// each a double held by its bits. A default value that is an infinity or a
/// NaN is written as `null`. The handle is null where the key or the label is
/// a null pointer or not valid UTF-8.
pub fn rtsyn_ui_field_float(
    key: Option<&[u8]>,
    label: Option<&[u8]>,
    default_value: FloatBits,
    min: FloatBits,
    max: FloatBits,
) -> (r: RTSynConfigField)
    ensures
        r@ == match arg_names(key, label) {
            Some((k, l)) => Some(
                ConfigFieldView::new(
                    k,
                    l,
                    FieldTypeView::Float {
                        min: Some(Number::Float(min)),
                        max: Some(Number::Float(max)),
                        step: Number::Float(FloatBits { bits: DEFAULT_FLOAT_STEP_BITS }),
                    },
                ).default_value(number_json(Number::Float(default_value))),
            ),
            None => None,
        },
{
    let key = match read_text(key) {
        Some(k) => k,
        None => {
            return RTSynConfigField { field: None };
        },
    };
    let label = match read_text(label) {
        Some(l) => l,
        None => {
            return RTSynConfigField { field: None };
        },
    };
    let field = ConfigField::float(key.as_str(), label.as_str()).min_f(Number::Float(min)).max_f(
        Number::Float(max),
    ).default_value(Json::number(Number::Float(default_value)));
    RTSynConfigField { field: Some(field) }
}

/// A handle to a new boolean field whose default value is true exactly where
/// the given number is not 0. The handle is null where the key or the label
/// is a null pointer or not valid UTF-8.
pub fn rtsyn_ui_field_boolean(key: Option<&[u8]>, label: Option<&[u8]>, default_value: i32) -> (r:
    RTSynConfigField)
    ensures
        r@ == match arg_names(key, label) {
            Some((k, l)) => Some(
                ConfigFieldView::new(k, l, FieldTypeView::Boolean).default_value(
                    JsonView::Bool(default_value != 0),
                ),
            ),
            None => None,
        },
{
    let key = match read_text(key) {
        Some(k) => k,
        None => {
            return RTSynConfigField { field: None };
        },
    };
    let label = match read_text(label) {
        Some(l) => l,
        None => {
            return RTSynConfigField { field: None };
        },
    };
    let field = ConfigField::boolean(key.as_str(), label.as_str()).default_value(
        Json::Bool(default_value != 0),
    );
    RTSynConfigField { field: Some(field) }
}

/// A handle to a new path field with the dialog that the mode number stands
/// for and no filters. The handle is null where the key or the label is a
/// null pointer or not valid UTF-8. A default path that is a null pointer or
/// not valid UTF-8 is passed over.
pub fn rtsyn_ui_field_filepath(
    key: Option<&[u8]>,
    label: Option<&[u8]>,
    default_path: Option<&[u8]>,
    mode: i32,
) -> (r: RTSynConfigField)
    ensures
        r@ == match arg_names(key, label) {
            Some((k, l)) => Some(
                with_text_default(
                    ConfigFieldView::new(
                        k,
                        l,
                        FieldTypeView::FilePath { mode: file_mode_of(mode), filters: Seq::empty() },
                    ),
                    arg_text(default_path),
                ),
            ),
            None => None,
        },
{
    let key = match read_text(key) {
        Some(k) => k,
        None => {
            return RTSynConfigField { field: None };
        },
    };
    let label = match read_text(label) {
        Some(l) => l,
        None => {
            return RTSynConfigField { field: None };
        },
    };
    let file_mode = if mode == RTSYN_FILE_MODE_SAVE {
        FileMode::SaveFile
    } else if mode == RTSYN_FILE_MODE_FOLDER {
        FileMode::SelectFolder
    } else {
        FileMode::OpenFile
    };
    let mut field = ConfigField::filepath(key.as_str(), label.as_str()).mode(file_mode);
    if let Some(path) = read_text(default_path) {
        field = field.default_value(Json::String(path));
    }
    RTSynConfigField { field: Some(field) }
}

/// The handle under which the text of an encoding goes out. It is null where
/// there is no text, because encoding failed, and where the text has a zero
/// byte inside.
pub fn rtsyn_string_from_text(text: Option<String>) -> (r: RTSynString)
    ensures
        r@ == match text {
            Some(t) => terminated_bytes(t@),
            None => None,
        },
{
    match text {
        Some(t) => RTSynString { bytes: terminated(t) },
        None => RTSynString { bytes: None },
    }
}

/// Frees a string handle and what it owns. Freeing a null handle does
/// nothing.
pub fn rtsyn_string_free(s: RTSynString) {
    let _ = s;
}

/// Frees a field handle and what it owns. Freeing a null handle does nothing.
pub fn rtsyn_ui_field_free(field: RTSynConfigField) {
    let _ = field;
}

/// The encoding that answers a behavior query, from flags as they cross the
/// boundary: a flag is set exactly where its number is not 0.
pub fn rtsyn_behavior_to_json(
    supports_start_stop: i32,
    supports_restart: i32,
    extendable_inputs_type: i32,
    extendable_inputs_pattern: Option<&[u8]>,
    loads_started: i32,
    connection_dependent: i32,
) -> (r: Json)
    ensures
        r@ == encode_behavior_query(
            PluginBehaviorView {
                supports_start_stop: supports_start_stop != 0,
                supports_restart: supports_restart != 0,
                extendable_inputs: extendable_inputs_of(
                    extendable_inputs_type,
                    extendable_inputs_pattern,
                ),
                loads_started: loads_started != 0,
            },
            connection_dependent != 0,
        ),
{
    let extendable_inputs = if extendable_inputs_type == 1 {
        ExtendableInputs::Manual
    } else if extendable_inputs_type == 2 {
        match read_text(extendable_inputs_pattern) {
            Some(pattern) => ExtendableInputs::Auto { pattern },
            None => ExtendableInputs::Auto { pattern: "in_{}".to_owned() },
        }
    } else {
        ExtendableInputs::Fixed
    };
    let behavior = PluginBehavior {
        supports_start_stop: supports_start_stop != 0,
        supports_restart: supports_restart != 0,
        extendable_inputs,
        loads_started: loads_started != 0,
    };
    let mut members: Vec<(String, Json)> = Vec::new();
    members.push(("behavior".to_owned(), behavior.to_json()));
    members.push(("connection_dependent".to_owned(), Json::Bool(connection_dependent != 0)));
    proof {
        lemma_object_view(members);
        assert(members.deep_view() =~= encode_behavior_query(
            behavior@,
            connection_dependent != 0,
        )->Object_0);
    }
    Json::Object(members)
}

} // verus!
