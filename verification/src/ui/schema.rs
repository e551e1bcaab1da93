//! The configuration schema of a plugin: an ordered list of fields, each with a
//! key, a label, a type with its constraints, and optionally a default value
//! and a hint.
//!
//! Fields are built by a constructor for the type followed by mutators. A
//! mutator that aims at an attribute which the field's type does not carry
//! leaves the field as it is.

use crate::json::{
    as_text, find, get_bool, get_i64, get_number, get_optional, get_optional_i64,
    get_optional_number, get_optional_text, get_optional_usize, get_required, get_text,
    get_texts, key_count, key_index, lemma_array_view, lemma_key_concat, lemma_key_empty,
    lemma_key_index, lemma_key_maybe, lemma_key_one, lemma_object_view, lemma_texts_round_trip,
    maybe, number_json, one, optional, optional_i64, optional_number, optional_text,
    optional_usize, outcome, required, required_bool, required_i64, required_number,
    required_text, required_texts, text_is, texts_json, DecodeError, FloatBits, Json, JsonView,
    Members, Number,
};
use vstd::prelude::*;

verus! {

/// The kind of file dialog a host should offer for a path field.
#[derive(Debug, Clone, Copy, PartialEq, Eq)]
pub enum FileMode {
    OpenFile,
    SaveFile,
    SelectFolder,
}

/// The type of a field, with the constraints that go with it.
#[derive(Debug, PartialEq)]
pub enum FieldType {
    Integer { min: Option<i64>, max: Option<i64>, step: i64 },
    /// Bounds and step are JSON numbers; a floating-point one is held by its
    /// bit pattern.
    Float { min: Option<Number>, max: Option<Number>, step: Number },
    Text { multiline: bool, max_length: Option<usize> },
    Boolean,
    FilePath { mode: FileMode, filters: Vec<(String, String)> },
    DynamicList { item_type: Box<FieldType>, add_label: String },
    Choice { options: Vec<String> },
}

/// The mathematical value of a [`FieldType`].
pub enum FieldTypeView {
    Integer { min: Option<i64>, max: Option<i64>, step: i64 },
    Float { min: Option<Number>, max: Option<Number>, step: Number },
    Text { multiline: bool, max_length: Option<usize> },
    Boolean,
    FilePath { mode: FileMode, filters: Seq<(Seq<char>, Seq<char>)> },
    DynamicList { item_type: Box<FieldTypeView>, add_label: Seq<char> },
    Choice { options: Seq<Seq<char>> },
}

/// The value of a field type.
pub open spec fn field_type_view(t: FieldType) -> FieldTypeView
    decreases t,
{
    match t {
        FieldType::Integer { min, max, step } => FieldTypeView::Integer { min, max, step },
        FieldType::Float { min, max, step } => FieldTypeView::Float { min, max, step },
        FieldType::Text { multiline, max_length } => FieldTypeView::Text { multiline, max_length },
        FieldType::Boolean => FieldTypeView::Boolean,
        FieldType::FilePath { mode, filters } => FieldTypeView::FilePath {
            mode,
            filters: filters.deep_view(),
        },
        FieldType::DynamicList { item_type, add_label } => FieldTypeView::DynamicList {
            item_type: Box::new(field_type_view(*item_type)),
            add_label: add_label@,
        },
        FieldType::Choice { options } => FieldTypeView::Choice { options: options.deep_view() },
    }
}

impl View for FieldType {
    type V = FieldTypeView;

    open spec fn view(&self) -> FieldTypeView {
        field_type_view(*self)
    }
}

impl DeepView for FieldType {
    type V = FieldTypeView;

    open spec fn deep_view(&self) -> FieldTypeView {
        self@
    }
}

/// A copy of a list of filters.
fn copy_filters(filters: &Vec<(String, String)>) -> (r: Vec<(String, String)>)
    ensures
        r.deep_view() == filters.deep_view(),
{
    let mut out: Vec<(String, String)> = Vec::new();
    let mut i: usize = 0;
    while i < filters.len()
        invariant
            i <= filters.len(),
            out.len() == i,
            forall|k: int| 0 <= k < i ==> out[k].0@ == filters[k].0@ && out[k].1@ == filters[k].1@,
        decreases filters.len() - i,
    {
        out.push((filters[i].0.clone(), filters[i].1.clone()));
        i = i + 1;
    }
    proof {
        assert(out.deep_view() =~= filters.deep_view());
    }
    out
}

/// A copy of a list of texts.
fn copy_texts(texts: &Vec<String>) -> (r: Vec<String>)
    ensures
        r.deep_view() == texts.deep_view(),
{
    let mut out: Vec<String> = Vec::new();
    let mut i: usize = 0;
    while i < texts.len()
        invariant
            i <= texts.len(),
            out.len() == i,
            forall|k: int| 0 <= k < i ==> out[k]@ == texts[k]@,
        decreases texts.len() - i,
    {
        out.push(texts[i].clone());
        i = i + 1;
    }
    proof {
        assert(out.deep_view() =~= texts.deep_view());
    }
    out
}

impl Clone for FieldType {
    /// A deep copy: the same type.
    fn clone(&self) -> (r: FieldType)
        ensures
            r@ == self@,
        decreases self,
    {
        match self {
            FieldType::Integer { min, max, step } => FieldType::Integer {
                min: *min,
                max: *max,
                step: *step,
            },
            FieldType::Float { min, max, step } => FieldType::Float {
                min: *min,
                max: *max,
                step: *step,
            },
            FieldType::Text { multiline, max_length } => FieldType::Text {
                multiline: *multiline,
                max_length: *max_length,
            },
            FieldType::Boolean => FieldType::Boolean,
            FieldType::FilePath { mode, filters } => FieldType::FilePath {
                mode: *mode,
                filters: copy_filters(filters),
            },
            FieldType::DynamicList { item_type, add_label } => {
                let inner: &FieldType = &**item_type;
                FieldType::DynamicList {
                    item_type: Box::new(inner.clone()),
                    add_label: add_label.clone(),
                }
            },
            FieldType::Choice { options } => FieldType::Choice { options: copy_texts(options) },
        }
    }
}

/// One configurable field of a plugin.
#[derive(Debug, Clone, PartialEq)]
pub struct ConfigField {
    /// Names the setting; hosts store configuration under it.
    pub key: String,
    pub label: String,
    pub field_type: FieldType,
    pub default: Option<Json>,
    pub hint: Option<String>,
}

/// The mathematical value of a [`ConfigField`].
pub struct ConfigFieldView {
    pub key: Seq<char>,
    pub label: Seq<char>,
    pub field_type: FieldTypeView,
    pub default: Option<JsonView>,
    pub hint: Option<Seq<char>>,
}

impl View for ConfigField {
    type V = ConfigFieldView;

    open spec fn view(&self) -> ConfigFieldView {
        ConfigFieldView {
            key: self.key@,
            label: self.label@,
            field_type: self.field_type@,
            default: self.default.deep_view(),
            hint: self.hint.deep_view(),
        }
    }
}

impl DeepView for ConfigField {
    type V = ConfigFieldView;

    open spec fn deep_view(&self) -> ConfigFieldView {
        self@
    }
}

/// The fields of a plugin's configuration, in display order.
#[derive(Debug, Clone, PartialEq)]
pub struct UISchema {
    pub fields: Vec<ConfigField>,
}

/// The mathematical value of a [`UISchema`].
pub struct UISchemaView {
    pub fields: Seq<ConfigFieldView>,
}

impl View for UISchema {
    type V = UISchemaView;

    open spec fn view(&self) -> UISchemaView {
        UISchemaView { fields: self.fields.deep_view() }
    }
}

/// The bit pattern of the double nearest to 0.1, the step of a new float field.
pub const DEFAULT_FLOAT_STEP_BITS: u64 = 0x3fb9_9999_9999_999a;

/// The type of a new text field: a single line of any length.
pub open spec fn plain_text() -> FieldTypeView {
    FieldTypeView::Text { multiline: false, max_length: None }
}

/// The label of the add button of a new list field.
pub open spec fn default_add_label() -> Seq<char> {
    "Add"@
}

impl ConfigFieldView {
    /// A field of the given type with no default value and no hint.
    pub open spec fn new(key: Seq<char>, label: Seq<char>, field_type: FieldTypeView) -> Self {
        ConfigFieldView { key, label, field_type, default: None, hint: None }
    }

    /// The field with the given default value.
    pub open spec fn default_value(self, value: JsonView) -> Self {
        ConfigFieldView { default: Some(value), ..self }
    }

    /// The field with the given hint.
    pub open spec fn hint(self, hint: Seq<char>) -> Self {
        ConfigFieldView { hint: Some(hint), ..self }
    }

    /// A text field with the given greatest length; any other field as it is.
    pub open spec fn max_length(self, max: usize) -> Self {
        match self.field_type {
            FieldTypeView::Text { multiline, max_length } => ConfigFieldView {
                field_type: FieldTypeView::Text { multiline, max_length: Some(max) },
                ..self
            },
            _ => self,
        }
    }

    /// A text field made multi-line; any other field as it is.
    pub open spec fn multiline(self) -> Self {
        match self.field_type {
            FieldTypeView::Text { multiline, max_length } => ConfigFieldView {
                field_type: FieldTypeView::Text { multiline: true, max_length },
                ..self
            },
            _ => self,
        }
    }

    /// An integer field with the given lower bound; any other field as it is.
    pub open spec fn min(self, value: i64) -> Self {
        match self.field_type {
            FieldTypeView::Integer { min, max, step } => ConfigFieldView {
                field_type: FieldTypeView::Integer { min: Some(value), max, step },
                ..self
            },
            _ => self,
        }
    }

    /// An integer field with the given upper bound; any other field as it is.
    pub open spec fn max(self, value: i64) -> Self {
        match self.field_type {
            FieldTypeView::Integer { min, max, step } => ConfigFieldView {
                field_type: FieldTypeView::Integer { min, max: Some(value), step },
                ..self
            },
            _ => self,
        }
    }

    /// An integer field with the given step; any other field as it is.
    pub open spec fn step(self, value: i64) -> Self {
        match self.field_type {
            FieldTypeView::Integer { min, max, step } => ConfigFieldView {
                field_type: FieldTypeView::Integer { min, max, step: value },
                ..self
            },
            _ => self,
        }
    }

    /// A float field with the given lower bound; any other field as it is.
    pub open spec fn min_f(self, value: Number) -> Self {
        match self.field_type {
            FieldTypeView::Float { min, max, step } => ConfigFieldView {
                field_type: FieldTypeView::Float { min: Some(value), max, step },
                ..self
            },
            _ => self,
        }
    }

    /// A float field with the given upper bound; any other field as it is.
    pub open spec fn max_f(self, value: Number) -> Self {
        match self.field_type {
            FieldTypeView::Float { min, max, step } => ConfigFieldView {
                field_type: FieldTypeView::Float { min, max: Some(value), step },
                ..self
            },
            _ => self,
        }
    }

    /// A float field with the given step; any other field as it is.
    pub open spec fn step_f(self, value: Number) -> Self {
        match self.field_type {
            FieldTypeView::Float { min, max, step } => ConfigFieldView {
                field_type: FieldTypeView::Float { min, max, step: value },
                ..self
            },
            _ => self,
        }
    }

    /// A path field with the given dialog; any other field as it is.
    pub open spec fn mode(self, value: FileMode) -> Self {
        match self.field_type {
            FieldTypeView::FilePath { mode, filters } => ConfigFieldView {
                field_type: FieldTypeView::FilePath { mode: value, filters },
                ..self
            },
            _ => self,
        }
    }

    /// A path field with one more filter; any other field as it is.
    pub open spec fn filter(self, name: Seq<char>, pattern: Seq<char>) -> Self {
        match self.field_type {
            FieldTypeView::FilePath { mode, filters } => ConfigFieldView {
                field_type: FieldTypeView::FilePath {
                    mode,
                    filters: filters.push((name, pattern)),
                },
                ..self
            },
            _ => self,
        }
    }

    /// A list field with the given type of items; any other field as it is.
    pub open spec fn item_type(self, value: FieldTypeView) -> Self {
        match self.field_type {
            FieldTypeView::DynamicList { item_type, add_label } => ConfigFieldView {
                field_type: FieldTypeView::DynamicList { item_type: Box::new(value), add_label },
                ..self
            },
            _ => self,
        }
    }

    /// A list field with the given label of its add button; any other field as it
    /// is.
    pub open spec fn add_label(self, value: Seq<char>) -> Self {
        match self.field_type {
            FieldTypeView::DynamicList { item_type, add_label } => ConfigFieldView {
                field_type: FieldTypeView::DynamicList { item_type, add_label: value },
                ..self
            },
            _ => self,
        }
    }
}

impl ConfigField {
    /// A field of the given type with no default value and no hint.
    pub fn new(key: &str, label: &str, field_type: FieldType) -> (r: ConfigField)
        ensures
            r@ == ConfigFieldView::new(key@, label@, field_type@),
    {
        ConfigField {
            key: key.to_owned(),
            label: label.to_owned(),
            field_type,
            default: None,
            hint: None,
        }
    }

    /// A text field: a single line of any length.
    pub fn text(key: &str, label: &str) -> (r: ConfigField)
        ensures
            r@ == ConfigFieldView::new(key@, label@, plain_text()),
    {
        ConfigField::new(key, label, FieldType::Text { multiline: false, max_length: None })
    }

    /// An integer field: no bounds, step 1.
    pub fn integer(key: &str, label: &str) -> (r: ConfigField)
        ensures
            r@ == ConfigFieldView::new(
                key@,
                label@,
                FieldTypeView::Integer { min: None, max: None, step: 1 },
            ),
    {
        ConfigField::new(key, label, FieldType::Integer { min: None, max: None, step: 1 })
    }

    /// A float field: no bounds, step 0.1.
    pub fn float(key: &str, label: &str) -> (r: ConfigField)
        ensures
            r@ == ConfigFieldView::new(
                key@,
                label@,
                FieldTypeView::Float {
                    min: None,
                    max: None,
                    step: Number::Float(FloatBits { bits: DEFAULT_FLOAT_STEP_BITS }),
                },
            ),
    {
        ConfigField::new(
            key,
            label,
            FieldType::Float {
                min: None,
                max: None,
                step: Number::from_float_bits(DEFAULT_FLOAT_STEP_BITS),
            },
        )
    }

    /// A boolean field.
    pub fn boolean(key: &str, label: &str) -> (r: ConfigField)
        ensures
            r@ == ConfigFieldView::new(key@, label@, FieldTypeView::Boolean),
    {
        ConfigField::new(key, label, FieldType::Boolean)
    }

    /// A path field: a dialog to open a file, no filters.
    pub fn filepath(key: &str, label: &str) -> (r: ConfigField)
        ensures
            r@ == ConfigFieldView::new(
                key@,
                label@,
                FieldTypeView::FilePath { mode: FileMode::OpenFile, filters: Seq::empty() },
            ),
    {
        let filters: Vec<(String, String)> = Vec::new();
        proof {
            assert(filters.deep_view() =~= Seq::<(Seq<char>, Seq<char>)>::empty());
        }
        ConfigField::new(key, label, FieldType::FilePath { mode: FileMode::OpenFile, filters })
    }

    /// A list field: items are plain text, and the add button reads "Add".
    pub fn dynamic_list(key: &str, label: &str) -> (r: ConfigField)
        ensures
            r@ == ConfigFieldView::new(
                key@,
                label@,
                FieldTypeView::DynamicList {
                    item_type: Box::new(plain_text()),
                    add_label: default_add_label(),
                },
            ),
    {
        let item = FieldType::Text { multiline: false, max_length: None };
        assert(item@ == plain_text());
        ConfigField::new(
            key,
            label,
            FieldType::DynamicList { item_type: Box::new(item), add_label: "Add".to_owned() },
        )
    }

    /// Sets the default value.
    pub fn default_value(self, value: Json) -> (r: ConfigField)
        ensures
            r@ == self@.default_value(value@),
    {
        let ConfigField { key, label, field_type, default: _, hint } = self;
        ConfigField { key, label, field_type, default: Some(value), hint }
    }

    /// Sets the hint.
    pub fn hint(self, hint: &str) -> (r: ConfigField)
        ensures
            r@ == self@.hint(hint@),
    {
        let ConfigField { key, label, field_type, default, hint: _ } = self;
        ConfigField { key, label, field_type, default, hint: Some(hint.to_owned()) }
    }

    /// Sets the greatest length of a text field; leaves any other field as it
    /// is.
    pub fn max_length(self, max: usize) -> (r: ConfigField)
        ensures
            r@ == self@.max_length(max),
    {
        let ConfigField { key, label, field_type, default, hint } = self;
        let field_type = match field_type {
            FieldType::Text { multiline, max_length: _ } => FieldType::Text {
                multiline,
                max_length: Some(max),
            },
            other => other,
        };
        ConfigField { key, label, field_type, default, hint }
    }

    /// Makes a text field multi-line; leaves any other field as it is.
    pub fn multiline(self) -> (r: ConfigField)
        ensures
            r@ == self@.multiline(),
    {
        let ConfigField { key, label, field_type, default, hint } = self;
        let field_type = match field_type {
            FieldType::Text { multiline: _, max_length } => FieldType::Text {
                multiline: true,
                max_length,
            },
            other => other,
        };
        ConfigField { key, label, field_type, default, hint }
    }

    /// Sets the lower bound of an integer field; leaves any other field as it
    /// is.
    pub fn min(self, min: i64) -> (r: ConfigField)
        ensures
            r@ == self@.min(min),
    {
        let ConfigField { key, label, field_type, default, hint } = self;
        let field_type = match field_type {
            FieldType::Integer { min: _, max, step } => FieldType::Integer {
                min: Some(min),
                max,
                step,
            },
            other => other,
        };
        ConfigField { key, label, field_type, default, hint }
    }

    /// Sets the upper bound of an integer field; leaves any other field as it
    /// is.
    pub fn max(self, max: i64) -> (r: ConfigField)
        ensures
            r@ == self@.max(max),
    {
        let ConfigField { key, label, field_type, default, hint } = self;
        let field_type = match field_type {
            FieldType::Integer { min, max: _, step } => FieldType::Integer {
                min,
                max: Some(max),
                step,
            },
            other => other,
        };
        ConfigField { key, label, field_type, default, hint }
    }

    /// Sets the step of an integer field; leaves any other field as it is.
    pub fn step(self, step: i64) -> (r: ConfigField)
        ensures
            r@ == self@.step(step),
    {
        let ConfigField { key, label, field_type, default, hint } = self;
        let field_type = match field_type {
            FieldType::Integer { min, max, step: _ } => FieldType::Integer { min, max, step },
            other => other,
        };
        ConfigField { key, label, field_type, default, hint }
    }

    /// Sets the lower bound of a float field; leaves any other field as it is.
    pub fn min_f(self, min: Number) -> (r: ConfigField)
        ensures
            r@ == self@.min_f(min),
    {
        let ConfigField { key, label, field_type, default, hint } = self;
        let field_type = match field_type {
            FieldType::Float { min: _, max, step } => FieldType::Float {
                min: Some(min),
                max,
                step,
            },
            other => other,
        };
        ConfigField { key, label, field_type, default, hint }
    }

    /// Sets the upper bound of a float field; leaves any other field as it is.
    pub fn max_f(self, max: Number) -> (r: ConfigField)
        ensures
            r@ == self@.max_f(max),
    {
        let ConfigField { key, label, field_type, default, hint } = self;
        let field_type = match field_type {
            FieldType::Float { min, max: _, step } => FieldType::Float {
                min,
                max: Some(max),
                step,
            },
            other => other,
        };
        ConfigField { key, label, field_type, default, hint }
    }

    /// Sets the step of a float field; leaves any other field as it is.
    pub fn step_f(self, step: Number) -> (r: ConfigField)
        ensures
            r@ == self@.step_f(step),
    {
        let ConfigField { key, label, field_type, default, hint } = self;
        let field_type = match field_type {
            FieldType::Float { min, max, step: _ } => FieldType::Float { min, max, step },
            other => other,
        };
        ConfigField { key, label, field_type, default, hint }
    }

    /// Sets the dialog of a path field; leaves any other field as it is.
    pub fn mode(self, mode: FileMode) -> (r: ConfigField)
        ensures
            r@ == self@.mode(mode),
    {
        let ConfigField { key, label, field_type, default, hint } = self;
        let field_type = match field_type {
            FieldType::FilePath { mode: _, filters } => FieldType::FilePath { mode, filters },
            other => other,
        };
        ConfigField { key, label, field_type, default, hint }
    }

    /// Adds a filter after those a path field has; leaves any other field as
    /// it is.
    pub fn filter(self, name: &str, pattern: &str) -> (r: ConfigField)
        ensures
            r@ == self@.filter(name@, pattern@),
    {
        let ConfigField { key, label, field_type, default, hint } = self;
        let field_type = match field_type {
            FieldType::FilePath { mode, filters } => {
                let mut filters = filters;
                let ghost before = filters.deep_view();
                filters.push((name.to_owned(), pattern.to_owned()));
                proof {
                    assert(filters.deep_view() =~= before.push((name@, pattern@)));
                }
                FieldType::FilePath { mode, filters }
            },
            other => other,
        };
        ConfigField { key, label, field_type, default, hint }
    }

    /// Sets the type of the items of a list field; leaves any other field as
    /// it is.
    pub fn item_type(self, item_type: FieldType) -> (r: ConfigField)
        ensures
            r@ == self@.item_type(item_type@),
    {
        let ConfigField { key, label, field_type, default, hint } = self;
        let field_type = match field_type {
            FieldType::DynamicList { item_type: _, add_label } => FieldType::DynamicList {
                item_type: Box::new(item_type),
                add_label,
            },
            other => other,
        };
        ConfigField { key, label, field_type, default, hint }
    }

    /// Sets the label of the add button of a list field; leaves any other
    /// field as it is.
    pub fn add_label(self, label: &str) -> (r: ConfigField)
        ensures
            r@ == self@.add_label(label@),
    {
        let ConfigField { key, label: own_label, field_type, default, hint } = self;
        let field_type = match field_type {
            FieldType::DynamicList { item_type, add_label: _ } => FieldType::DynamicList {
                item_type,
                add_label: label.to_owned(),
            },
            other => other,
        };
        ConfigField { key, label: own_label, field_type, default, hint }
    }
}

impl UISchema {
    /// A schema without fields.
    pub fn new() -> (r: UISchema)
        ensures
            r@.fields == Seq::<ConfigFieldView>::empty(),
    {
        let fields: Vec<ConfigField> = Vec::new();
        proof {
            assert(fields.deep_view() =~= Seq::<ConfigFieldView>::empty());
        }
        UISchema { fields }
    }

    /// The schema with one more field after those it has.
    pub fn field(self, field: ConfigField) -> (r: UISchema)
        ensures
            r@.fields == self@.fields.push(field@),
    {
        let mut fields = self.fields;
        let ghost before = fields.deep_view();
        fields.push(field);
        proof {
            assert(fields.deep_view() =~= before.push(field@));
        }
        UISchema { fields }
    }
}

impl Default for UISchema {
    fn default() -> (r: UISchema)
        ensures
            r@.fields == Seq::<ConfigFieldView>::empty(),
    {
        UISchema::new()
    }
}

/// The encoding of a [`FileMode`]: its name in lower case.
pub open spec fn encode_file_mode(mode: FileMode) -> JsonView {
    match mode {
        FileMode::OpenFile => JsonView::String("openfile"@),
        FileMode::SaveFile => JsonView::String("savefile"@),
        FileMode::SelectFolder => JsonView::String("selectfolder"@),
    }
}

/// What a document decodes to as a [`FileMode`].
pub open spec fn decode_file_mode(j: JsonView) -> Result<FileMode, DecodeError> {
    match j {
        JsonView::String(s) => if s == "openfile"@ {
            Ok(FileMode::OpenFile)
        } else if s == "savefile"@ {
            Ok(FileMode::SaveFile)
        } else if s == "selectfolder"@ {
            Ok(FileMode::SelectFolder)
        } else {
            Err(DecodeError::UnknownVariant)
        },
        _ => Err(DecodeError::InvalidType),
    }
}

/// The document for a signed integer.
pub open spec fn int_json(i: i64) -> JsonView {
    JsonView::Number(Number::of_i64(i))
}

/// The document for a size.
pub open spec fn size_json(n: usize) -> JsonView {
    JsonView::Number(Number::PosInt(n as u64))
}

/// The document for a signed integer, where there is one.
pub open spec fn opt_int_json(v: Option<i64>) -> Option<JsonView> {
    match v {
        Some(i) => Some(int_json(i)),
        None => None,
    }
}

/// The document for a number, where there is one.
pub open spec fn opt_number_json(v: Option<Number>) -> Option<JsonView> {
    match v {
        Some(n) => Some(number_json(n)),
        None => None,
    }
}

/// The document for a size, where there is one.
pub open spec fn opt_size_json(v: Option<usize>) -> Option<JsonView> {
    match v {
        Some(n) => Some(size_json(n)),
        None => None,
    }
}

/// The document for a text, where there is one.
pub open spec fn opt_text_json(v: Option<Seq<char>>) -> Option<JsonView> {
    match v {
        Some(s) => Some(JsonView::String(s)),
        None => None,
    }
}

/// The encoding of one file filter: the array of its name and its pattern.
pub open spec fn filter_json(f: (Seq<char>, Seq<char>)) -> JsonView {
    JsonView::Array(seq![JsonView::String(f.0), JsonView::String(f.1)])
}

/// The encoding of a list of file filters.
pub open spec fn filters_json(filters: Seq<(Seq<char>, Seq<char>)>) -> JsonView {
    JsonView::Array(Seq::new(filters.len(), |i: int| filter_json(filters[i])))
}

/// What a document decodes to as one file filter.
pub open spec fn as_filter(j: JsonView) -> Result<(Seq<char>, Seq<char>), DecodeError> {
    match j {
        JsonView::Array(pair) => if pair.len() != 2 {
            Err(DecodeError::InvalidLength)
        } else {
            match as_text(pair[0]) {
                Err(e) => Err(e),
                Ok(name) => match as_text(pair[1]) {
                    Err(e) => Err(e),
                    Ok(pattern) => Ok((name, pattern)),
                },
            }
        },
        _ => Err(DecodeError::InvalidType),
    }
}

/// What a run of documents decodes to as file filters; the first that is in
/// error decides.
pub open spec fn filter_list(items: Seq<JsonView>) -> Result<
    Seq<(Seq<char>, Seq<char>)>,
    DecodeError,
>
    decreases items.len(),
{
    if items.len() == 0 {
        Ok(Seq::empty())
    } else {
        match filter_list(items.drop_last()) {
            Err(e) => Err(e),
            Ok(before) => match as_filter(items.last()) {
                Err(e) => Err(e),
                Ok(f) => Ok(before.push(f)),
            },
        }
    }
}

/// What a document decodes to as a list of file filters.
pub open spec fn as_filters(j: JsonView) -> Result<Seq<(Seq<char>, Seq<char>)>, DecodeError> {
    match j {
        JsonView::Array(items) => filter_list(items),
        _ => Err(DecodeError::InvalidType),
    }
}

/// The text that names the variant of a field type in an encoding.
pub open spec fn discriminant(t: FieldTypeView) -> Seq<char> {
    match t {
        FieldTypeView::Integer { .. } => "integer"@,
        FieldTypeView::Float { .. } => "float"@,
        FieldTypeView::Text { .. } => "text"@,
        FieldTypeView::Boolean => "boolean"@,
        FieldTypeView::FilePath { .. } => "filepath"@,
        FieldTypeView::DynamicList { .. } => "dynamiclist"@,
        FieldTypeView::Choice { .. } => "choice"@,
    }
}

/// The members that carry the attributes of a field type, in order. A bound
/// that is absent is left out. The type of the items of a list is a field
/// type that stands alone, under `item_type`.
pub open spec fn attributes(t: FieldTypeView) -> Members
    decreases t, 0nat,
{
    match t {
        FieldTypeView::Integer { min, max, step } => maybe("min"@, opt_int_json(min)) + maybe(
            "max"@,
            opt_int_json(max),
        ) + one("step"@, int_json(step)),
        FieldTypeView::Float { min, max, step } => maybe("min"@, opt_number_json(min)) + maybe(
            "max"@,
            opt_number_json(max),
        ) + one("step"@, number_json(step)),
        FieldTypeView::Text { multiline, max_length } => one(
            "multiline"@,
            JsonView::Bool(multiline),
        ) + maybe("max_length"@, opt_size_json(max_length)),
        FieldTypeView::Boolean => Seq::empty(),
        FieldTypeView::FilePath { mode, filters } => one("mode"@, encode_file_mode(mode)) + one(
            "filters"@,
            filters_json(filters),
        ),
        FieldTypeView::DynamicList { item_type, add_label } => one(
            "item_type"@,
            encode_field_type(*item_type),
        ) + one("add_label"@, JsonView::String(add_label)),
        FieldTypeView::Choice { options } => one("options"@, texts_json(options)),
    }
}

/// The encoding of a [`FieldType`] that stands alone: an object whose `kind`
/// is the discriminant, followed by the attributes.
pub open spec fn encode_field_type(t: FieldTypeView) -> JsonView
    decreases t, 1nat,
{
    JsonView::Object(one("kind"@, JsonView::String(discriminant(t))) + attributes(t))
}

/// What the members of an object decode to as an integer type.
pub open spec fn decode_integer(members: Members) -> Result<FieldTypeView, DecodeError> {
    match optional_i64(members, "min"@) {
        Err(e) => Err(e),
        Ok(min) => match optional_i64(members, "max"@) {
            Err(e) => Err(e),
            Ok(max) => match required_i64(members, "step"@) {
                Err(e) => Err(e),
                Ok(step) => Ok(FieldTypeView::Integer { min, max, step }),
            },
        },
    }
}

/// What the members of an object decode to as a float type. Any JSON number
/// is taken, whether it is written as an integer or not.
pub open spec fn decode_float(members: Members) -> Result<FieldTypeView, DecodeError> {
    match optional_number(members, "min"@) {
        Err(e) => Err(e),
        Ok(min) => match optional_number(members, "max"@) {
            Err(e) => Err(e),
            Ok(max) => match required_number(members, "step"@) {
                Err(e) => Err(e),
                Ok(step) => Ok(FieldTypeView::Float { min, max, step }),
            },
        },
    }
}

/// What the members of an object decode to as a text type.
pub open spec fn decode_text(members: Members) -> Result<FieldTypeView, DecodeError> {
    match required_bool(members, "multiline"@) {
        Err(e) => Err(e),
        Ok(multiline) => match optional_usize(members, "max_length"@) {
            Err(e) => Err(e),
            Ok(max_length) => Ok(FieldTypeView::Text { multiline, max_length }),
        },
    }
}

/// What the members of an object decode to as a path type.
pub open spec fn decode_filepath(members: Members) -> Result<FieldTypeView, DecodeError> {
    match required(members, "mode"@) {
        Err(e) => Err(e),
        Ok(m) => match decode_file_mode(m) {
            Err(e) => Err(e),
            Ok(mode) => match required(members, "filters"@) {
                Err(e) => Err(e),
                Ok(f) => match as_filters(f) {
                    Err(e) => Err(e),
                    Ok(filters) => Ok(FieldTypeView::FilePath { mode, filters }),
                },
            },
        },
    }
}

/// What the members of an object decode to as a choice type.
pub open spec fn decode_choice(members: Members) -> Result<FieldTypeView, DecodeError> {
    match required_texts(members, "options"@) {
        Err(e) => Err(e),
        Ok(options) => Ok(FieldTypeView::Choice { options }),
    }
}

/// What the members of an object decode to as the field type that a
/// discriminant names. A discriminant that names none is an error. Within a
/// variant the first attribute that is in error decides, and keys that the
/// variant does not read are passed over.
pub open spec fn decode_variant(kind: Seq<char>, members: Members) -> Result<
    FieldTypeView,
    DecodeError,
>
    decreases members,
{
    if kind == "integer"@ {
        decode_integer(members)
    } else if kind == "float"@ {
        decode_float(members)
    } else if kind == "text"@ {
        decode_text(members)
    } else if kind == "boolean"@ {
        Ok(FieldTypeView::Boolean)
    } else if kind == "filepath"@ {
        decode_filepath(members)
    } else if kind == "dynamiclist"@ {
        let at = key_index(members, "item_type"@);
        if key_count(members, "item_type"@) > 1 {
            Err(DecodeError::DuplicateField)
        } else if key_count(members, "item_type"@) == 0 || !(0 <= at < members.len()) {
            Err(DecodeError::MissingField)
        } else {
            match decode_field_type(members[at].1) {
                Err(e) => Err(e),
                Ok(item) => match required_text(members, "add_label"@) {
                    Err(e) => Err(e),
                    Ok(add_label) => Ok(
                        FieldTypeView::DynamicList { item_type: Box::new(item), add_label },
                    ),
                },
            }
        }
    } else if kind == "choice"@ {
        decode_choice(members)
    } else {
        Err(DecodeError::UnknownVariant)
    }
}

/// What a document decodes to as a [`FieldType`] that stands alone. It must
/// be an object whose `kind` names a variant; the attributes are read from
/// the same object.
pub open spec fn decode_field_type(j: JsonView) -> Result<FieldTypeView, DecodeError>
    decreases j,
{
    match j {
        JsonView::Object(members) => match required_text(members, "kind"@) {
            Err(e) => Err(e),
            Ok(kind) => decode_variant(kind, members),
        },
        _ => Err(DecodeError::InvalidType),
    }
}

/// The encoding of a [`ConfigField`]: one object with `key`, `label`, the
/// discriminant of the field type under `type`, the attributes of the field
/// type beside it, then `default` and `hint` where the field has them.
pub open spec fn encode_field(f: ConfigFieldView) -> JsonView {
    JsonView::Object(
        one("key"@, JsonView::String(f.key)) + one("label"@, JsonView::String(f.label)) + one(
            "type"@,
            JsonView::String(discriminant(f.field_type)),
        ) + attributes(f.field_type) + maybe("default"@, f.default) + maybe(
            "hint"@,
            opt_text_json(f.hint),
        ),
    )
}

/// What a document decodes to as a [`ConfigField`]. `key`, `label` and `type`
/// are required, and `type` is a text that names a variant; the attributes of
/// the variant are read from the same object. `default` and `hint` may be left
/// out or be `null`.
pub open spec fn decode_field(j: JsonView) -> Result<ConfigFieldView, DecodeError> {
    match j {
        JsonView::Object(members) => match required_text(members, "key"@) {
            Err(e) => Err(e),
            Ok(key) => match required_text(members, "label"@) {
                Err(e) => Err(e),
                Ok(label) => match required_text(members, "type"@) {
                    Err(e) => Err(e),
                    Ok(kind) => match decode_variant(kind, members) {
                        Err(e) => Err(e),
                        Ok(field_type) => match optional(members, "default"@) {
                            Err(e) => Err(e),
                            Ok(default) => match optional_text(members, "hint"@) {
                                Err(e) => Err(e),
                                Ok(hint) => Ok(
                                    ConfigFieldView { key, label, field_type, default, hint },
                                ),
                            },
                        },
                    },
                },
            },
        },
        _ => Err(DecodeError::InvalidType),
    }
}

/// What a run of documents decodes to as fields; the first that is in error
/// decides.
pub open spec fn field_list(items: Seq<JsonView>) -> Result<Seq<ConfigFieldView>, DecodeError>
    decreases items.len(),
{
    if items.len() == 0 {
        Ok(Seq::empty())
    } else {
        match field_list(items.drop_last()) {
            Err(e) => Err(e),
            Ok(before) => match decode_field(items.last()) {
                Err(e) => Err(e),
                Ok(f) => Ok(before.push(f)),
            },
        }
    }
}

/// The encoding of a [`UISchema`]: an object whose `fields` lists the fields
/// in order.
pub open spec fn encode_schema(s: UISchemaView) -> JsonView {
    JsonView::Object(
        one(
            "fields"@,
            JsonView::Array(Seq::new(s.fields.len(), |i: int| encode_field(s.fields[i]))),
        ),
    )
}

/// What a document decodes to as a [`UISchema`].
pub open spec fn decode_schema(j: JsonView) -> Result<UISchemaView, DecodeError> {
    match j {
        JsonView::Object(members) => match required(members, "fields"@) {
            Err(e) => Err(e),
            Ok(JsonView::Array(items)) => match field_list(items) {
                Err(e) => Err(e),
                Ok(fields) => Ok(UISchemaView { fields }),
            },
            Ok(_) => Err(DecodeError::InvalidType),
        },
        _ => Err(DecodeError::InvalidType),
    }
}

impl FileMode {
    /// Encodes the mode as a JSON document.
    pub fn to_json(&self) -> (r: Json)
        ensures
            r@ == encode_file_mode(*self),
    {
        match self {
            FileMode::OpenFile => Json::text("openfile"),
            FileMode::SaveFile => Json::text("savefile"),
            FileMode::SelectFolder => Json::text("selectfolder"),
        }
    }

    /// Decodes a JSON document.
    pub fn from_json(j: &Json) -> (r: Result<FileMode, DecodeError>)
        ensures
            r == decode_file_mode(j@),
    {
        match j {
            Json::String(s) => if text_is(s, "openfile") {
                Ok(FileMode::OpenFile)
            } else if text_is(s, "savefile") {
                Ok(FileMode::SaveFile)
            } else if text_is(s, "selectfolder") {
                Ok(FileMode::SelectFolder)
            } else {
                Err(DecodeError::UnknownVariant)
            },
            _ => Err(DecodeError::InvalidType),
        }
    }
}

/// Encodes a list of file filters.
fn filters_to_json(filters: &Vec<(String, String)>) -> (r: Json)
    ensures
        r@ == filters_json(filters.deep_view()),
{
    let mut out: Vec<Json> = Vec::new();
    let mut i: usize = 0;
    while i < filters.len()
        invariant
            i <= filters.len(),
            out.len() == i,
            forall|k: int| 0 <= k < i ==> out[k]@ == filter_json((filters[k].0@, filters[k].1@)),
        decreases filters.len() - i,
    {
        let mut pair: Vec<Json> = Vec::new();
        pair.push(Json::String(filters[i].0.clone()));
        pair.push(Json::String(filters[i].1.clone()));
        proof {
            lemma_array_view(pair);
            assert(pair.deep_view() =~= seq![
                JsonView::String(filters[i as int].0@),
                JsonView::String(filters[i as int].1@),
            ]);
        }
        out.push(Json::Array(pair));
        i = i + 1;
    }
    proof {
        lemma_array_view(out);
        assert(out.deep_view() =~= filters_json(filters.deep_view())->Array_0);
    }
    Json::Array(out)
}

/// Decodes one file filter.
fn filter_from_json(j: &Json) -> (r: Result<(String, String), DecodeError>)
    ensures
        match r {
            Ok(f) => as_filter(j@) == Ok::<_, DecodeError>((f.0@, f.1@)),
            Err(e) => as_filter(j@) == Err::<(Seq<char>, Seq<char>), _>(e),
        },
{
    match j {
        Json::Array(pair) => {
            proof {
                lemma_array_view(*pair);
            }
            if pair.len() != 2 {
                Err(DecodeError::InvalidLength)
            } else {
                let name = pair[0].to_text()?;
                let pattern = pair[1].to_text()?;
                Ok((name, pattern))
            }
        },
        _ => Err(DecodeError::InvalidType),
    }
}

/// Decodes a list of file filters.
fn filters_from_json(j: &Json) -> (r: Result<Vec<(String, String)>, DecodeError>)
    ensures
        match r {
            Ok(v) => as_filters(j@) == Ok::<_, DecodeError>(v.deep_view()),
            Err(e) => as_filters(j@) == Err::<Seq<(Seq<char>, Seq<char>)>, _>(e),
        },
{
    match j {
        Json::Array(items) => {
            proof {
                lemma_array_view(*items);
            }
            let ghost views = items.deep_view();
            let mut out: Vec<(String, String)> = Vec::new();
            let mut i: usize = 0;
            proof {
                assert(views.take(0) =~= Seq::empty());
                assert(out.deep_view() =~= Seq::empty());
            }
            while i < items.len()
                invariant
                    i <= items.len(),
                    views == items.deep_view(),
                    as_filters(j@) == filter_list(views),
                    filter_list(views.take(i as int)) == Ok::<_, DecodeError>(out.deep_view()),
                decreases items.len() - i,
            {
                proof {
                    assert(views.take(i + 1).drop_last() =~= views.take(i as int));
                    assert(views.take(i + 1).last() == items[i as int]@);
                }
                let ghost before = out.deep_view();
                match filter_from_json(&items[i]) {
                    Err(e) => {
                        proof {
                            lemma_filter_list_error(views, i + 1);
                        }
                        return Err(e);
                    },
                    Ok(f) => {
                        let ghost fv = (f.0@, f.1@);
                        out.push(f);
                        proof {
                            assert(out.deep_view() =~= before.push(fv));
                        }
                    },
                }
                i = i + 1;
            }
            proof {
                assert(views.take(i as int) =~= views);
            }
            Ok(out)
        },
        _ => Err(DecodeError::InvalidType),
    }
}

/// An error among the first documents of a run is the error of the whole run.
proof fn lemma_filter_list_error(items: Seq<JsonView>, n: int)
    requires
        0 <= n <= items.len(),
        filter_list(items.take(n)) is Err,
    ensures
        filter_list(items) == filter_list(items.take(n)),
    decreases items.len() - n,
{
    if n < items.len() {
        assert(items.take(n + 1).drop_last() =~= items.take(n));
        lemma_filter_list_error(items, n + 1);
    } else {
        assert(items.take(n) =~= items);
    }
}

/// An error among the first documents of a run is the error of the whole run.
proof fn lemma_field_list_error(items: Seq<JsonView>, n: int)
    requires
        0 <= n <= items.len(),
        field_list(items.take(n)) is Err,
    ensures
        field_list(items) == field_list(items.take(n)),
    decreases items.len() - n,
{
    if n < items.len() {
        assert(items.take(n + 1).drop_last() =~= items.take(n));
        lemma_field_list_error(items, n + 1);
    } else {
        assert(items.take(n) =~= items);
    }
}

impl FieldType {
    /// The text that names the variant in an encoding.
    pub fn discriminant(&self) -> (r: &'static str)
        ensures
            r@ == discriminant(self@),
    {
        match self {
            FieldType::Integer { .. } => "integer",
            FieldType::Float { .. } => "float",
            FieldType::Text { .. } => "text",
            FieldType::Boolean => "boolean",
            FieldType::FilePath { .. } => "filepath",
            FieldType::DynamicList { .. } => "dynamiclist",
            FieldType::Choice { .. } => "choice",
        }
    }

    /// Writes the members that carry the attributes after those that are
    /// there.
    fn push_attributes(&self, members: &mut Vec<(String, Json)>)
        ensures
            final(members).deep_view() == old(members).deep_view() + attributes(self@),
        decreases self, 0nat,
    {
        let ghost before = members.deep_view();
        match self {
            FieldType::Integer { min, max, step } => {
                if let Some(m) = min {
                    members.push(("min".to_owned(), Json::integer(*m)));
                }
                if let Some(m) = max {
                    members.push(("max".to_owned(), Json::integer(*m)));
                }
                members.push(("step".to_owned(), Json::integer(*step)));
            },
            FieldType::Float { min, max, step } => {
                if let Some(m) = min {
                    members.push(("min".to_owned(), Json::number(*m)));
                }
                if let Some(m) = max {
                    members.push(("max".to_owned(), Json::number(*m)));
                }
                members.push(("step".to_owned(), Json::number(*step)));
            },
            FieldType::Text { multiline, max_length } => {
                members.push(("multiline".to_owned(), Json::Bool(*multiline)));
                if let Some(m) = max_length {
                    members.push(("max_length".to_owned(), Json::size(*m)));
                }
            },
            FieldType::Boolean => {},
            FieldType::FilePath { mode, filters } => {
                members.push(("mode".to_owned(), mode.to_json()));
                members.push(("filters".to_owned(), filters_to_json(filters)));
            },
            FieldType::DynamicList { item_type, add_label } => {
                let inner: &FieldType = &**item_type;
                members.push(("item_type".to_owned(), inner.to_json()));
                members.push(("add_label".to_owned(), Json::String(add_label.clone())));
            },
            FieldType::Choice { options } => {
                members.push(("options".to_owned(), Json::texts(options)));
            },
        }
        proof {
            assert(members.deep_view() =~= before + attributes(self@));
        }
    }

    /// Encodes the type as a JSON document of its own.
    pub fn to_json(&self) -> (r: Json)
        ensures
            r@ == encode_field_type(self@),
        decreases self, 1nat,
    {
        let mut members: Vec<(String, Json)> = Vec::new();
        members.push(("kind".to_owned(), Json::text(self.discriminant())));
        let ghost head = members.deep_view();
        self.push_attributes(&mut members);
        proof {
            lemma_object_view(members);
            assert(head =~= one("kind"@, JsonView::String(discriminant(self@))));
        }
        Json::Object(members)
    }

    /// Reads, from the members of an object, the field type that a
    /// discriminant names.
    fn read_variant(kind: &String, members: &Vec<(String, Json)>) -> (r: Result<
        FieldType,
        DecodeError,
    >)
        ensures
            outcome(r) == decode_variant(kind@, members.deep_view()),
        decreases members,
    {
        if text_is(kind, "integer") {
            let min = get_optional_i64(members, "min")?;
            let max = get_optional_i64(members, "max")?;
            let step = get_i64(members, "step")?;
            Ok(FieldType::Integer { min, max, step })
        } else if text_is(kind, "float") {
            let min = get_optional_number(members, "min")?;
            let max = get_optional_number(members, "max")?;
            let step = get_number(members, "step")?;
            Ok(FieldType::Float { min, max, step })
        } else if text_is(kind, "text") {
            let multiline = get_bool(members, "multiline")?;
            let max_length = get_optional_usize(members, "max_length")?;
            Ok(FieldType::Text { multiline, max_length })
        } else if text_is(kind, "boolean") {
            Ok(FieldType::Boolean)
        } else if text_is(kind, "filepath") {
            let m = get_required(members, "mode")?;
            let mode = FileMode::from_json(m)?;
            let f = get_required(members, "filters")?;
            let filters = filters_from_json(f)?;
            Ok(FieldType::FilePath { mode, filters })
        } else if text_is(kind, "dynamiclist") {
            match find(members, "item_type") {
                Err(e) => Err(e),
                Ok(None) => Err(DecodeError::MissingField),
                Ok(Some(at)) => {
                    proof {
                        assert(decreases_to!(members => members[at as int]));
                        assert(members.deep_view()[at as int].1 == members[at as int].1@);
                    }
                    let item = FieldType::from_json(&members[at].1)?;
                    let add_label = get_text(members, "add_label")?;
                    Ok(FieldType::DynamicList { item_type: Box::new(item), add_label })
                },
            }
        } else if text_is(kind, "choice") {
            let options = get_texts(members, "options")?;
            Ok(FieldType::Choice { options })
        } else {
            Err(DecodeError::UnknownVariant)
        }
    }

    /// Decodes a JSON document that holds a field type of its own.
    pub fn from_json(j: &Json) -> (r: Result<FieldType, DecodeError>)
        ensures
            outcome(r) == decode_field_type(j@),
        decreases j,
    {
        match j {
            Json::Object(members) => {
                proof {
                    lemma_object_view(*members);
                }
                let kind = get_text(members, "kind")?;
                FieldType::read_variant(&kind, members)
            },
            _ => Err(DecodeError::InvalidType),
        }
    }
}

impl ConfigField {
    /// Encodes the field as a JSON document.
    pub fn to_json(&self) -> (r: Json)
        ensures
            r@ == encode_field(self@),
    {
        let mut members: Vec<(String, Json)> = Vec::new();
        members.push(("key".to_owned(), Json::String(self.key.clone())));
        members.push(("label".to_owned(), Json::String(self.label.clone())));
        members.push(("type".to_owned(), Json::text(self.field_type.discriminant())));
        let ghost head = members.deep_view();
        self.field_type.push_attributes(&mut members);
        let ghost body = members.deep_view();
        if let Some(d) = &self.default {
            members.push(("default".to_owned(), d.clone()));
        }
        if let Some(h) = &self.hint {
            members.push(("hint".to_owned(), Json::String(h.clone())));
        }
        proof {
            lemma_object_view(members);
            assert(head =~= one("key"@, JsonView::String(self@.key)) + one(
                "label"@,
                JsonView::String(self@.label),
            ) + one("type"@, JsonView::String(discriminant(self@.field_type))));
            assert(members.deep_view() =~= body + maybe("default"@, self@.default) + maybe(
                "hint"@,
                opt_text_json(self@.hint),
            ));
        }
        Json::Object(members)
    }

    /// Decodes a JSON document.
    pub fn from_json(j: &Json) -> (r: Result<ConfigField, DecodeError>)
        ensures
            outcome(r) == decode_field(j@),
    {
        match j {
            Json::Object(members) => {
                proof {
                    lemma_object_view(*members);
                }
                let key = get_text(members, "key")?;
                let label = get_text(members, "label")?;
                let kind = get_text(members, "type")?;
                let field_type = FieldType::read_variant(&kind, members)?;
                let default = match get_optional(members, "default")? {
                    Some(d) => Some(d.clone()),
                    None => None,
                };
                let hint = get_optional_text(members, "hint")?;
                Ok(ConfigField { key, label, field_type, default, hint })
            },
            _ => Err(DecodeError::InvalidType),
        }
    }
}

impl UISchema {
    /// Encodes the schema as a JSON document.
    pub fn to_json(&self) -> (r: Json)
        ensures
            r@ == encode_schema(self@),
    {
        let mut out: Vec<Json> = Vec::new();
        let mut i: usize = 0;
        while i < self.fields.len()
            invariant
                i <= self.fields.len(),
                out.len() == i,
                forall|k: int| 0 <= k < i ==> out[k]@ == encode_field(self.fields[k]@),
            decreases self.fields.len() - i,
        {
            out.push(self.fields[i].to_json());
            i = i + 1;
        }
        let mut members: Vec<(String, Json)> = Vec::new();
        proof {
            lemma_array_view(out);
            assert(out.deep_view() =~= Seq::new(
                self@.fields.len(),
                |i: int| encode_field(self@.fields[i]),
            ));
        }
        members.push(("fields".to_owned(), Json::Array(out)));
        proof {
            lemma_object_view(members);
            assert(members.deep_view() =~= encode_schema(self@)->Object_0);
        }
        Json::Object(members)
    }

    /// Decodes a JSON document.
    pub fn from_json(j: &Json) -> (r: Result<UISchema, DecodeError>)
        ensures
            outcome(r) == decode_schema(j@),
    {
        match j {
            Json::Object(members) => {
                proof {
                    lemma_object_view(*members);
                }
                match get_required(members, "fields")? {
                    Json::Array(items) => {
                        proof {
                            lemma_array_view(*items);
                        }
                        let ghost views = items.deep_view();
                        let mut out: Vec<ConfigField> = Vec::new();
                        let mut i: usize = 0;
                        proof {
                            assert(views.take(0) =~= Seq::empty());
                            assert(out.deep_view() =~= Seq::empty());
                        }
                        while i < items.len()
                            invariant
                                i <= items.len(),
                                views == items.deep_view(),
                                decode_schema(j@) == (match field_list(views) {
                                    Err(e) => Err(e),
                                    Ok(fields) => Ok(UISchemaView { fields }),
                                }),
                                field_list(views.take(i as int)) == Ok::<_, DecodeError>(
                                    out.deep_view(),
                                ),
                            decreases items.len() - i,
                        {
                            proof {
                                assert(views.take(i + 1).drop_last() =~= views.take(i as int));
                                assert(views.take(i + 1).last() == items[i as int]@);
                            }
                            let ghost before = out.deep_view();
                            match ConfigField::from_json(&items[i]) {
                                Err(e) => {
                                    proof {
                                        lemma_field_list_error(views, i + 1);
                                    }
                                    return Err(e);
                                },
                                Ok(f) => {
                                    let ghost fv = f@;
                                    out.push(f);
                                    proof {
                                        assert(out.deep_view() =~= before.push(fv));
                                    }
                                },
                            }
                            i = i + 1;
                        }
                        proof {
                            assert(views.take(i as int) =~= views);
                        }
                        Ok(UISchema { fields: out })
                    },
                    _ => Err(DecodeError::InvalidType),
                }
            },
            _ => Err(DecodeError::InvalidType),
        }
    }
}

/// A mutator that aims at an attribute which the field's type does not carry
/// leaves the field, and with it the field's encoding, as it was.
pub proof fn lemma_mismatched_mutator_keeps_encoding(
    f: ConfigFieldView,
    size: usize,
    bound: i64,
    number: Number,
    mode: FileMode,
    name: Seq<char>,
    pattern: Seq<char>,
    item: FieldTypeView,
    label: Seq<char>,
)
    ensures
        !(f.field_type is Text) ==> encode_field(f.max_length(size)) == encode_field(f)
            && encode_field(f.multiline()) == encode_field(f),
        !(f.field_type is Integer) ==> encode_field(f.min(bound)) == encode_field(f)
            && encode_field(f.max(bound)) == encode_field(f) && encode_field(f.step(bound))
            == encode_field(f),
        !(f.field_type is Float) ==> encode_field(f.min_f(number)) == encode_field(f)
            && encode_field(f.max_f(number)) == encode_field(f) && encode_field(f.step_f(number))
            == encode_field(f),
        !(f.field_type is FilePath) ==> encode_field(f.mode(mode)) == encode_field(f)
            && encode_field(f.filter(name, pattern)) == encode_field(f),
        !(f.field_type is DynamicList) ==> encode_field(f.item_type(item)) == encode_field(f)
            && encode_field(f.add_label(label)) == encode_field(f),
{
}

/// Whether JSON text can carry every number of a field type as it stands: no
/// bound and no step of a float type is an infinity, a NaN, or an integer
/// from zero on that is written as a `NegInt`.
pub open spec fn type_carried(t: FieldTypeView) -> bool
    decreases t,
{
    match t {
        FieldTypeView::Float { min, max, step } => {
            &&& (min is Some ==> min->0.representable())
            &&& (max is Some ==> max->0.representable())
            &&& step.representable()
        },
        FieldTypeView::DynamicList { item_type, add_label } => type_carried(*item_type),
        _ => true,
    }
}

/// Whether a field comes back from its encoding: JSON text can carry its
/// numbers, and its default value, if it has one, is not `null`.
pub open spec fn field_carried(f: ConfigFieldView) -> bool {
    type_carried(f.field_type) && f.default != Some(JsonView::Null)
}

/// The keys and discriminants of this module are pairwise different texts
/// where one encoding uses both.
pub proof fn lemma_schema_texts_differ()
    ensures
        "openfile"@ != "savefile"@,
        "openfile"@ != "selectfolder"@,
        "savefile"@ != "selectfolder"@,
        "kind"@ != "min"@,
        "kind"@ != "max"@,
        "kind"@ != "step"@,
        "min"@ != "max"@,
        "min"@ != "step"@,
        "max"@ != "step"@,
        "kind"@ != "multiline"@,
        "kind"@ != "max_length"@,
        "multiline"@ != "max_length"@,
        "kind"@ != "mode"@,
        "kind"@ != "filters"@,
        "mode"@ != "filters"@,
        "kind"@ != "item_type"@,
        "kind"@ != "add_label"@,
        "item_type"@ != "add_label"@,
        "kind"@ != "options"@,
        "integer"@ != "float"@,
        "integer"@ != "text"@,
        "integer"@ != "boolean"@,
        "integer"@ != "filepath"@,
        "integer"@ != "dynamiclist"@,
        "integer"@ != "choice"@,
        "float"@ != "text"@,
        "float"@ != "boolean"@,
        "float"@ != "filepath"@,
        "float"@ != "dynamiclist"@,
        "float"@ != "choice"@,
        "text"@ != "boolean"@,
        "text"@ != "filepath"@,
        "text"@ != "dynamiclist"@,
        "text"@ != "choice"@,
        "boolean"@ != "filepath"@,
        "boolean"@ != "dynamiclist"@,
        "boolean"@ != "choice"@,
        "filepath"@ != "dynamiclist"@,
        "filepath"@ != "choice"@,
        "dynamiclist"@ != "choice"@,
        "key"@ != "label"@,
        "key"@ != "type"@,
        "key"@ != "default"@,
        "key"@ != "hint"@,
        "label"@ != "type"@,
        "label"@ != "default"@,
        "label"@ != "hint"@,
        "type"@ != "default"@,
        "type"@ != "hint"@,
        "default"@ != "hint"@,
{
    reveal_strlit("openfile");
    reveal_strlit("savefile");
    reveal_strlit("selectfolder");
    reveal_strlit("kind");
    reveal_strlit("min");
    reveal_strlit("max");
    reveal_strlit("step");
    reveal_strlit("multiline");
    reveal_strlit("max_length");
    reveal_strlit("mode");
    reveal_strlit("filters");
    reveal_strlit("item_type");
    reveal_strlit("add_label");
    reveal_strlit("options");
    reveal_strlit("integer");
    reveal_strlit("float");
    reveal_strlit("text");
    reveal_strlit("boolean");
    reveal_strlit("filepath");
    reveal_strlit("dynamiclist");
    reveal_strlit("choice");
    reveal_strlit("key");
    reveal_strlit("label");
    reveal_strlit("type");
    reveal_strlit("default");
    reveal_strlit("hint");
    assert("openfile"@.len() == 8 && "savefile"@.len() == 8 && "selectfolder"@.len() == 12);
    assert("openfile"@[0] != "savefile"@[0]);
    assert("kind"@.len() == 4 && "min"@.len() == 3 && "max"@.len() == 3 && "step"@.len() == 4);
    assert("kind"@[0] != "step"@[0]);
    assert("min"@[1] != "max"@[1]);
    assert("multiline"@.len() == 9 && "max_length"@.len() == 10);
    assert("mode"@.len() == 4 && "filters"@.len() == 7);
    assert("kind"@[0] != "mode"@[0]);
    assert("item_type"@.len() == 9 && "add_label"@.len() == 9 && "options"@.len() == 7);
    assert("item_type"@[0] != "add_label"@[0]);
    assert("integer"@.len() == 7 && "float"@.len() == 5 && "text"@.len() == 4);
    assert("boolean"@.len() == 7 && "filepath"@.len() == 8 && "dynamiclist"@.len() == 11);
    assert("choice"@.len() == 6);
    assert("integer"@[0] != "boolean"@[0]);
    assert("key"@.len() == 3 && "label"@.len() == 5 && "type"@.len() == 4);
    assert("default"@.len() == 7 && "hint"@.len() == 4);
    assert("type"@[0] != "hint"@[0]);
}

/// Decoding the encoding of any [`FileMode`] gives it back.
pub proof fn lemma_file_mode_round_trip(mode: FileMode)
    ensures
        decode_file_mode(encode_file_mode(mode)) == Ok::<_, DecodeError>(mode),
{
    lemma_schema_texts_differ();
}

/// Decoding the encoding of any list of file filters gives it back.
pub proof fn lemma_filters_round_trip(filters: Seq<(Seq<char>, Seq<char>)>)
    ensures
        as_filters(filters_json(filters)) == Ok::<_, DecodeError>(filters),
    decreases filters.len(),
{
    let items = filters_json(filters)->Array_0;
    if filters.len() > 0 {
        let shorter = filters.drop_last();
        let f = filters.last();
        lemma_filters_round_trip(shorter);
        assert(items.drop_last() =~= filters_json(shorter)->Array_0);
        assert(items.last() == filter_json(f));
        let pair = filter_json(f)->Array_0;
        assert(pair.len() == 2 && pair[0] == JsonView::String(f.0) && pair[1] == JsonView::String(
            f.1,
        ));
        assert(as_filter(filter_json(f)) == Ok::<_, DecodeError>(f));
        assert(shorter.push(f) =~= filters);
    } else {
        assert(filters =~= Seq::empty());
    }
}

/// None of the keys under which the attributes of a field type are written
/// occurs among the members.
pub open spec fn no_attribute_keys(members: Members) -> bool {
    &&& key_count(members, "min"@) == 0
    &&& key_count(members, "max"@) == 0
    &&& key_count(members, "step"@) == 0
    &&& key_count(members, "multiline"@) == 0
    &&& key_count(members, "max_length"@) == 0
    &&& key_count(members, "mode"@) == 0
    &&& key_count(members, "filters"@) == 0
    &&& key_count(members, "item_type"@) == 0
    &&& key_count(members, "add_label"@) == 0
    &&& key_count(members, "options"@) == 0
}

/// The keys of a field differ from the keys under which the attributes of
/// its type are written.
pub proof fn lemma_field_keys_differ_from_attributes()
    ensures
        "key"@ != "min"@ && "key"@ != "max"@ && "key"@ != "step"@ && "key"@ != "multiline"@,
        "key"@ != "max_length"@ && "key"@ != "mode"@ && "key"@ != "filters"@,
        "key"@ != "item_type"@ && "key"@ != "add_label"@ && "key"@ != "options"@,
        "label"@ != "min"@ && "label"@ != "max"@ && "label"@ != "step"@,
        "label"@ != "multiline"@ && "label"@ != "max_length"@ && "label"@ != "mode"@,
        "label"@ != "filters"@ && "label"@ != "item_type"@ && "label"@ != "add_label"@,
        "label"@ != "options"@,
        "type"@ != "min"@ && "type"@ != "max"@ && "type"@ != "step"@ && "type"@ != "multiline"@,
        "type"@ != "max_length"@ && "type"@ != "mode"@ && "type"@ != "filters"@,
        "type"@ != "item_type"@ && "type"@ != "add_label"@ && "type"@ != "options"@,
        "default"@ != "min"@ && "default"@ != "max"@ && "default"@ != "step"@,
        "default"@ != "multiline"@ && "default"@ != "max_length"@ && "default"@ != "mode"@,
        "default"@ != "filters"@ && "default"@ != "item_type"@ && "default"@ != "add_label"@,
        "default"@ != "options"@,
        "hint"@ != "min"@ && "hint"@ != "max"@ && "hint"@ != "step"@ && "hint"@ != "multiline"@,
        "hint"@ != "max_length"@ && "hint"@ != "mode"@ && "hint"@ != "filters"@,
        "hint"@ != "item_type"@ && "hint"@ != "add_label"@ && "hint"@ != "options"@,
{
    reveal_strlit("key");
    reveal_strlit("label");
    reveal_strlit("type");
    reveal_strlit("default");
    reveal_strlit("hint");
    reveal_strlit("min");
    reveal_strlit("max");
    reveal_strlit("step");
    reveal_strlit("multiline");
    reveal_strlit("max_length");
    reveal_strlit("mode");
    reveal_strlit("filters");
    reveal_strlit("item_type");
    reveal_strlit("add_label");
    reveal_strlit("options");
    assert("key"@.len() == 3 && "label"@.len() == 5 && "type"@.len() == 4);
    assert("default"@.len() == 7 && "hint"@.len() == 4);
    assert("min"@.len() == 3 && "max"@.len() == 3 && "step"@.len() == 4);
    assert("multiline"@.len() == 9 && "max_length"@.len() == 10 && "mode"@.len() == 4);
    assert("filters"@.len() == 7 && "item_type"@.len() == 9 && "add_label"@.len() == 9);
    assert("options"@.len() == 7);
    assert("key"@[0] != "min"@[0] && "key"@[0] != "max"@[0]);
    assert("type"@[0] != "step"@[0] && "type"@[0] != "mode"@[0]);
    assert("hint"@[0] != "step"@[0] && "hint"@[0] != "mode"@[0]);
    assert("default"@[0] != "filters"@[0] && "default"@[0] != "options"@[0]);
}

/// The attributes of a field type are written under none of the keys `kind`,
/// `key`, `label`, `type`, `default` and `hint`.
pub proof fn lemma_attribute_keys(t: FieldTypeView)
    ensures
        key_count(attributes(t), "kind"@) == 0,
        key_count(attributes(t), "key"@) == 0,
        key_count(attributes(t), "label"@) == 0,
        key_count(attributes(t), "type"@) == 0,
        key_count(attributes(t), "default"@) == 0,
        key_count(attributes(t), "hint"@) == 0,
{
    broadcast use {lemma_key_empty, lemma_key_one, lemma_key_maybe, lemma_key_concat};

    lemma_schema_texts_differ();
    lemma_field_keys_differ_from_attributes();
}

proof fn lemma_integer_in_context(t: FieldTypeView, pre: Members, post: Members)
    requires
        t is Integer,
        no_attribute_keys(pre),
        no_attribute_keys(post),
    ensures
        decode_variant(discriminant(t), pre + attributes(t) + post) == Ok::<_, DecodeError>(t),
{
    broadcast use {
        lemma_key_empty,
        lemma_key_one,
        lemma_key_maybe,
        lemma_key_concat,
        lemma_key_index,
    };

    lemma_schema_texts_differ();
}

proof fn lemma_float_in_context(t: FieldTypeView, pre: Members, post: Members)
    requires
        t is Float,
        type_carried(t),
        no_attribute_keys(pre),
        no_attribute_keys(post),
    ensures
        decode_variant(discriminant(t), pre + attributes(t) + post) == Ok::<_, DecodeError>(t),
{
    broadcast use {
        lemma_key_empty,
        lemma_key_one,
        lemma_key_maybe,
        lemma_key_concat,
        lemma_key_index,
    };

    lemma_schema_texts_differ();
}

proof fn lemma_text_in_context(t: FieldTypeView, pre: Members, post: Members)
    requires
        t is Text,
        no_attribute_keys(pre),
        no_attribute_keys(post),
    ensures
        decode_variant(discriminant(t), pre + attributes(t) + post) == Ok::<_, DecodeError>(t),
{
    broadcast use {
        lemma_key_empty,
        lemma_key_one,
        lemma_key_maybe,
        lemma_key_concat,
        lemma_key_index,
    };

    lemma_schema_texts_differ();
}

proof fn lemma_boolean_in_context(t: FieldTypeView, pre: Members, post: Members)
    requires
        t is Boolean,
        no_attribute_keys(pre),
        no_attribute_keys(post),
    ensures
        decode_variant(discriminant(t), pre + attributes(t) + post) == Ok::<_, DecodeError>(t),
{
    broadcast use {
        lemma_key_empty,
        lemma_key_one,
        lemma_key_maybe,
        lemma_key_concat,
        lemma_key_index,
    };

    lemma_schema_texts_differ();
}

proof fn lemma_filepath_in_context(t: FieldTypeView, pre: Members, post: Members)
    requires
        t is FilePath,
        no_attribute_keys(pre),
        no_attribute_keys(post),
    ensures
        decode_variant(discriminant(t), pre + attributes(t) + post) == Ok::<_, DecodeError>(t),
{
    broadcast use {
        lemma_key_empty,
        lemma_key_one,
        lemma_key_maybe,
        lemma_key_concat,
        lemma_key_index,
    };

    lemma_schema_texts_differ();
    lemma_file_mode_round_trip(t->FilePath_mode);
    lemma_filters_round_trip(t->filters);
}

proof fn lemma_choice_in_context(t: FieldTypeView, pre: Members, post: Members)
    requires
        t is Choice,
        no_attribute_keys(pre),
        no_attribute_keys(post),
    ensures
        decode_variant(discriminant(t), pre + attributes(t) + post) == Ok::<_, DecodeError>(t),
{
    broadcast use {
        lemma_key_empty,
        lemma_key_one,
        lemma_key_maybe,
        lemma_key_concat,
        lemma_key_index,
    };

    lemma_schema_texts_differ();
    lemma_texts_round_trip(t->options);
}

proof fn lemma_dynamic_list_in_context(t: FieldTypeView, pre: Members, post: Members)
    requires
        t is DynamicList,
        decode_field_type(encode_field_type(*t->item_type)) == Ok::<_, DecodeError>(*t->item_type),
        no_attribute_keys(pre),
        no_attribute_keys(post),
    ensures
        decode_variant(discriminant(t), pre + attributes(t) + post) == Ok::<_, DecodeError>(t),
{
    broadcast use {
        lemma_key_empty,
        lemma_key_one,
        lemma_key_maybe,
        lemma_key_concat,
        lemma_key_index,
    };

    lemma_schema_texts_differ();
}

/// Among members that use none of the attribute keys elsewhere, the
/// attributes of a field type decode to that type under its discriminant,
/// for every type whose numbers JSON text can carry.
pub proof fn lemma_variant_in_context(t: FieldTypeView, pre: Members, post: Members)
    requires
        type_carried(t),
        no_attribute_keys(pre),
        no_attribute_keys(post),
    ensures
        decode_variant(discriminant(t), pre + attributes(t) + post) == Ok::<_, DecodeError>(t),
    decreases t, 0nat,
{
    match t {
        FieldTypeView::Integer { min, max, step } => {
            lemma_integer_in_context(t, pre, post);
        },
        FieldTypeView::Float { min, max, step } => {
            lemma_float_in_context(t, pre, post);
        },
        FieldTypeView::Text { multiline, max_length } => {
            lemma_text_in_context(t, pre, post);
        },
        FieldTypeView::Boolean => {
            lemma_boolean_in_context(t, pre, post);
        },
        FieldTypeView::FilePath { mode, filters } => {
            lemma_filepath_in_context(t, pre, post);
        },
        FieldTypeView::DynamicList { item_type, add_label } => {
            lemma_field_type_round_trip(*item_type);
            lemma_dynamic_list_in_context(t, pre, post);
        },
        FieldTypeView::Choice { options } => {
            lemma_choice_in_context(t, pre, post);
        },
    }
}

/// Decoding the encoding of a [`FieldType`] that stands alone gives it back,
/// for every type whose numbers JSON text can carry.
pub proof fn lemma_field_type_round_trip(t: FieldTypeView)
    requires
        type_carried(t),
    ensures
        decode_field_type(encode_field_type(t)) == Ok::<_, DecodeError>(t),
    decreases t, 1nat,
{
    broadcast use {lemma_key_empty, lemma_key_one, lemma_key_maybe, lemma_key_concat};

    let pre = one("kind"@, JsonView::String(discriminant(t)));
    let post = Seq::<(Seq<char>, JsonView)>::empty();
    let members = pre + attributes(t);
    lemma_schema_texts_differ();
    lemma_attribute_keys(t);
    lemma_variant_in_context(t, pre, post);
    assert(members =~= pre + attributes(t) + post);
}

/// The members of the encoding of a field that stand before the attributes.
pub open spec fn field_head(f: ConfigFieldView) -> Members {
    one("key"@, JsonView::String(f.key)) + one("label"@, JsonView::String(f.label)) + one(
        "type"@,
        JsonView::String(discriminant(f.field_type)),
    )
}

/// The members of the encoding of a field that stand after the attributes.
pub open spec fn field_tail(f: ConfigFieldView) -> Members {
    maybe("default"@, f.default) + maybe("hint"@, opt_text_json(f.hint))
}

/// What stands around the attributes in the encoding of a field is read
/// back as it was written, whatever the attributes are, as long as they use
/// none of the keys of the field.
proof fn lemma_field_frame(f: ConfigFieldView, attrs: Members)
    requires
        f.default != Some(JsonView::Null),
        key_count(attrs, "key"@) == 0,
        key_count(attrs, "label"@) == 0,
        key_count(attrs, "type"@) == 0,
        key_count(attrs, "default"@) == 0,
        key_count(attrs, "hint"@) == 0,
    ensures
        ({
            let members = field_head(f) + attrs + field_tail(f);
            &&& required_text(members, "key"@) == Ok::<_, DecodeError>(f.key)
            &&& required_text(members, "label"@) == Ok::<_, DecodeError>(f.label)
            &&& required_text(members, "type"@) == Ok::<_, DecodeError>(discriminant(f.field_type))
            &&& optional(members, "default"@) == Ok::<_, DecodeError>(f.default)
            &&& optional_text(members, "hint"@) == Ok::<_, DecodeError>(f.hint)
            &&& no_attribute_keys(field_head(f))
            &&& no_attribute_keys(field_tail(f))
        }),
{
    broadcast use {
        lemma_key_empty,
        lemma_key_one,
        lemma_key_maybe,
        lemma_key_concat,
        lemma_key_index,
    };

    lemma_schema_texts_differ();
    lemma_field_keys_differ_from_attributes();
}

/// Decoding the encoding of a [`ConfigField`] gives it back, for every field
/// whose numbers JSON text can carry and whose default value is not `null`.
pub proof fn lemma_field_round_trip(f: ConfigFieldView)
    requires
        field_carried(f),
    ensures
        decode_field(encode_field(f)) == Ok::<_, DecodeError>(f),
{
    let attrs = attributes(f.field_type);
    let members = field_head(f) + attrs + field_tail(f);
    lemma_attribute_keys(f.field_type);
    lemma_field_frame(f, attrs);
    lemma_variant_in_context(f.field_type, field_head(f), field_tail(f));
    assert(encode_field(f)->Object_0 =~= members);
}

/// Decoding the encodings of fields that each come back gives the fields
/// back, in order.
pub proof fn lemma_field_list_round_trip(fields: Seq<ConfigFieldView>)
    requires
        forall|i: int| 0 <= i < fields.len() ==> field_carried(#[trigger] fields[i]),
    ensures
        field_list(Seq::new(fields.len(), |i: int| encode_field(fields[i]))) == Ok::<
            _,
            DecodeError,
        >(fields),
    decreases fields.len(),
{
    let items = Seq::new(fields.len(), |i: int| encode_field(fields[i]));
    if fields.len() > 0 {
        let shorter = fields.drop_last();
        lemma_field_list_round_trip(shorter);
        lemma_field_round_trip(fields.last());
        assert(items.drop_last() =~= Seq::new(shorter.len(), |i: int| encode_field(shorter[i])));
        assert(items.last() == encode_field(fields.last()));
        assert(shorter.push(fields.last()) =~= fields);
    } else {
        assert(fields =~= Seq::empty());
    }
}

/// Decoding the encoding of a [`UISchema`] gives it back, for every schema
/// whose fields each come back.
pub proof fn lemma_schema_round_trip(s: UISchemaView)
    requires
        forall|i: int| 0 <= i < s.fields.len() ==> field_carried(#[trigger] s.fields[i]),
    ensures
        decode_schema(encode_schema(s)) == Ok::<_, DecodeError>(s),
{
    broadcast use {lemma_key_empty, lemma_key_one, lemma_key_maybe, lemma_key_concat};

    lemma_field_list_round_trip(s.fields);
}

} // verus!
