//! What a plugin declares about itself: whether it can be started, stopped and
//! restarted, whether its inputs can grow, and whether it depends on an
//! upstream connection. Each descriptor has a fixed JSON encoding.

use crate::json::{
    as_texts, get, get_bool, get_required, get_text, lemma_key_concat, lemma_key_empty,
    lemma_key_one, lemma_object_view, lemma_texts_round_trip, one, outcome, present, required,
    required_bool, required_text, text_is, texts_json, DecodeError, Json, JsonView, Members,
};
use vstd::prelude::*;

verus! {

/// Whether, and how, the set of inputs of a plugin can grow.
#[derive(Debug, Clone, PartialEq)]
pub enum ExtendableInputs {
    /// The inputs are fixed. Encoded as `none`.
    Fixed,
    /// The host may add and remove named inputs.
    Manual,
    /// The plugin derives the names of new inputs from a pattern.
    Auto { pattern: String },
}

/// The mathematical value of an [`ExtendableInputs`].
pub enum ExtendableInputsView {
    Fixed,
    Manual,
    Auto { pattern: Seq<char> },
}

impl View for ExtendableInputs {
    type V = ExtendableInputsView;

    open spec fn view(&self) -> ExtendableInputsView {
        match self {
            ExtendableInputs::Fixed => ExtendableInputsView::Fixed,
            ExtendableInputs::Manual => ExtendableInputsView::Manual,
            ExtendableInputs::Auto { pattern } => ExtendableInputsView::Auto { pattern: pattern@ },
        }
    }
}

/// What a plugin supports.
#[derive(Debug, Clone, PartialEq)]
pub struct PluginBehavior {
    pub supports_start_stop: bool,
    pub supports_restart: bool,
    pub extendable_inputs: ExtendableInputs,
    pub loads_started: bool,
}

/// The mathematical value of a [`PluginBehavior`].
pub struct PluginBehaviorView {
    pub supports_start_stop: bool,
    pub supports_restart: bool,
    pub extendable_inputs: ExtendableInputsView,
    pub loads_started: bool,
}

impl View for PluginBehavior {
    type V = PluginBehaviorView;

    open spec fn view(&self) -> PluginBehaviorView {
        PluginBehaviorView {
            supports_start_stop: self.supports_start_stop,
            supports_restart: self.supports_restart,
            extendable_inputs: self.extendable_inputs@,
            loads_started: self.loads_started,
        }
    }
}

/// The behavior of a plugin that declares none: it can be started, stopped and
/// restarted, its inputs are fixed, and it begins in the running state.
pub open spec fn default_behavior() -> PluginBehaviorView {
    PluginBehaviorView {
        supports_start_stop: true,
        supports_restart: true,
        extendable_inputs: ExtendableInputsView::Fixed,
        loads_started: true,
    }
}

impl Default for PluginBehavior {
    fn default() -> (r: PluginBehavior)
        ensures
            r@ == default_behavior(),
    {
        PluginBehavior {
            supports_start_stop: true,
            supports_restart: true,
            extendable_inputs: ExtendableInputs::Fixed,
            loads_started: true,
        }
    }
}

/// Whether a plugin is valid only with an upstream connection.
#[derive(Debug, Clone, PartialEq)]
pub struct ConnectionBehavior {
    pub dependent: bool,
}

impl Default for ConnectionBehavior {
    /// A plugin that declares nothing does not depend on a connection.
    fn default() -> (r: ConnectionBehavior)
        ensures
            r == (ConnectionBehavior { dependent: false }),
    {
        ConnectionBehavior { dependent: false }
    }
}

/// The names of what a plugin wants shown: outputs, inputs and variables.
#[derive(Debug, Clone)]
pub struct DisplaySchema {
    pub outputs: Vec<String>,
    pub inputs: Vec<String>,
    pub variables: Vec<String>,
}

/// The mathematical value of a [`DisplaySchema`].
pub struct DisplaySchemaView {
    pub outputs: Seq<Seq<char>>,
    pub inputs: Seq<Seq<char>>,
    pub variables: Seq<Seq<char>>,
}

impl View for DisplaySchema {
    type V = DisplaySchemaView;

    open spec fn view(&self) -> DisplaySchemaView {
        DisplaySchemaView {
            outputs: self.outputs.deep_view(),
            inputs: self.inputs.deep_view(),
            variables: self.variables.deep_view(),
        }
    }
}

/// The encoding of an [`ExtendableInputs`]: an object whose `type` is `none`,
/// `manual` or `auto`, the last with the pattern beside it.
pub open spec fn encode_extendable_inputs(v: ExtendableInputsView) -> JsonView {
    match v {
        ExtendableInputsView::Fixed => JsonView::Object(one("type"@, JsonView::String("none"@))),
        ExtendableInputsView::Manual => JsonView::Object(
            one("type"@, JsonView::String("manual"@)),
        ),
        ExtendableInputsView::Auto { pattern } => JsonView::Object(
            one("type"@, JsonView::String("auto"@)) + one("pattern"@, JsonView::String(pattern)),
        ),
    }
}

/// What a document decodes to as an [`ExtendableInputs`]. A `type` other than
/// the three known ones is an error.
pub open spec fn decode_extendable_inputs(j: JsonView) -> Result<
    ExtendableInputsView,
    DecodeError,
> {
    match j {
        JsonView::Object(members) => match required_text(members, "type"@) {
            Err(e) => Err(e),
            Ok(tag) => if tag == "none"@ {
                Ok(ExtendableInputsView::Fixed)
            } else if tag == "manual"@ {
                Ok(ExtendableInputsView::Manual)
            } else if tag == "auto"@ {
                match required_text(members, "pattern"@) {
                    Err(e) => Err(e),
                    Ok(pattern) => Ok(ExtendableInputsView::Auto { pattern }),
                }
            } else {
                Err(DecodeError::UnknownVariant)
            },
        },
        _ => Err(DecodeError::InvalidType),
    }
}

/// The encoding of a [`PluginBehavior`]: an object with its four fields in
/// the order of their declaration.
pub open spec fn encode_behavior(v: PluginBehaviorView) -> JsonView {
    JsonView::Object(
        one("supports_start_stop"@, JsonView::Bool(v.supports_start_stop)) + one(
            "supports_restart"@,
            JsonView::Bool(v.supports_restart),
        ) + one("extendable_inputs"@, encode_extendable_inputs(v.extendable_inputs)) + one(
            "loads_started"@,
            JsonView::Bool(v.loads_started),
        ),
    )
}

/// What a document decodes to as a [`PluginBehavior`]. All four fields are
/// required; the first that is in error decides.
pub open spec fn decode_behavior(j: JsonView) -> Result<PluginBehaviorView, DecodeError> {
    match j {
        JsonView::Object(members) => match required_bool(members, "supports_start_stop"@) {
            Err(e) => Err(e),
            Ok(supports_start_stop) => match required_bool(members, "supports_restart"@) {
                Err(e) => Err(e),
                Ok(supports_restart) => match required(members, "extendable_inputs"@) {
                    Err(e) => Err(e),
                    Ok(inner) => match decode_extendable_inputs(inner) {
                        Err(e) => Err(e),
                        Ok(extendable_inputs) => match required_bool(members, "loads_started"@) {
                            Err(e) => Err(e),
                            Ok(loads_started) => Ok(
                                PluginBehaviorView {
                                    supports_start_stop,
                                    supports_restart,
                                    extendable_inputs,
                                    loads_started,
                                },
                            ),
                        },
                    },
                },
            },
        },
        _ => Err(DecodeError::InvalidType),
    }
}

/// The encoding of a [`ConnectionBehavior`].
pub open spec fn encode_connection(v: ConnectionBehavior) -> JsonView {
    JsonView::Object(one("dependent"@, JsonView::Bool(v.dependent)))
}

/// What a document decodes to as a [`ConnectionBehavior`].
pub open spec fn decode_connection(j: JsonView) -> Result<ConnectionBehavior, DecodeError> {
    match j {
        JsonView::Object(members) => match required_bool(members, "dependent"@) {
            Err(e) => Err(e),
            Ok(dependent) => Ok(ConnectionBehavior { dependent }),
        },
        _ => Err(DecodeError::InvalidType),
    }
}

/// The encoding of a [`DisplaySchema`].
pub open spec fn encode_display(v: DisplaySchemaView) -> JsonView {
    JsonView::Object(
        one("outputs"@, texts_json(v.outputs)) + one("inputs"@, texts_json(v.inputs)) + one(
            "variables"@,
            texts_json(v.variables),
        ),
    )
}

/// The list of names under a key of a [`DisplaySchema`]: empty where the key
/// is absent.
pub open spec fn names_or_empty(members: Members, key: Seq<char>) -> Result<
    Seq<Seq<char>>,
    DecodeError,
> {
    match present(members, key) {
        Err(e) => Err(e),
        Ok(None) => Ok(Seq::empty()),
        Ok(Some(v)) => as_texts(v),
    }
}

/// What a document decodes to as a [`DisplaySchema`]. Each list may be left
/// out and is then empty.
pub open spec fn decode_display(j: JsonView) -> Result<DisplaySchemaView, DecodeError> {
    match j {
        JsonView::Object(members) => match names_or_empty(members, "outputs"@) {
            Err(e) => Err(e),
            Ok(outputs) => match names_or_empty(members, "inputs"@) {
                Err(e) => Err(e),
                Ok(inputs) => match names_or_empty(members, "variables"@) {
                    Err(e) => Err(e),
                    Ok(variables) => Ok(DisplaySchemaView { outputs, inputs, variables }),
                },
            },
        },
        _ => Err(DecodeError::InvalidType),
    }
}

impl ExtendableInputs {
    /// Encodes the value as a JSON document.
    pub fn to_json(&self) -> (r: Json)
        ensures
            r@ == encode_extendable_inputs(self@),
    {
        let mut members: Vec<(String, Json)> = Vec::new();
        match self {
            ExtendableInputs::Fixed => {
                members.push(("type".to_owned(), Json::text("none")));
            },
            ExtendableInputs::Manual => {
                members.push(("type".to_owned(), Json::text("manual")));
            },
            ExtendableInputs::Auto { pattern } => {
                members.push(("type".to_owned(), Json::text("auto")));
                members.push(("pattern".to_owned(), Json::String(pattern.clone())));
            },
        }
        proof {
            lemma_object_view(members);
            assert(members.deep_view() =~= encode_extendable_inputs(self@)->Object_0);
        }
        Json::Object(members)
    }

    /// Decodes a JSON document.
    pub fn from_json(j: &Json) -> (r: Result<ExtendableInputs, DecodeError>)
        ensures
            outcome(r) == decode_extendable_inputs(j@),
    {
        match j {
            Json::Object(members) => {
                proof {
                    lemma_object_view(*members);
                }
                let tag = get_text(members, "type")?;
                if text_is(&tag, "none") {
                    Ok(ExtendableInputs::Fixed)
                } else if text_is(&tag, "manual") {
                    Ok(ExtendableInputs::Manual)
                } else if text_is(&tag, "auto") {
                    let pattern = get_text(members, "pattern")?;
                    Ok(ExtendableInputs::Auto { pattern })
                } else {
                    Err(DecodeError::UnknownVariant)
                }
            },
            _ => Err(DecodeError::InvalidType),
        }
    }
}

impl PluginBehavior {
    /// Encodes the value as a JSON document.
    pub fn to_json(&self) -> (r: Json)
        ensures
            r@ == encode_behavior(self@),
    {
        let mut members: Vec<(String, Json)> = Vec::new();
        members.push(("supports_start_stop".to_owned(), Json::Bool(self.supports_start_stop)));
        members.push(("supports_restart".to_owned(), Json::Bool(self.supports_restart)));
        members.push(("extendable_inputs".to_owned(), self.extendable_inputs.to_json()));
        members.push(("loads_started".to_owned(), Json::Bool(self.loads_started)));
        proof {
            lemma_object_view(members);
            assert(members.deep_view() =~= encode_behavior(self@)->Object_0);
        }
        Json::Object(members)
    }

    /// Decodes a JSON document.
    pub fn from_json(j: &Json) -> (r: Result<PluginBehavior, DecodeError>)
        ensures
            outcome(r) == decode_behavior(j@),
    {
        match j {
            Json::Object(members) => {
                proof {
                    lemma_object_view(*members);
                }
                let supports_start_stop = get_bool(members, "supports_start_stop")?;
                let supports_restart = get_bool(members, "supports_restart")?;
                let inner = get_required(members, "extendable_inputs")?;
                let extendable_inputs = ExtendableInputs::from_json(inner)?;
                let loads_started = get_bool(members, "loads_started")?;
                Ok(
                    PluginBehavior {
                        supports_start_stop,
                        supports_restart,
                        extendable_inputs,
                        loads_started,
                    },
                )
            },
            _ => Err(DecodeError::InvalidType),
        }
    }
}

impl ConnectionBehavior {
    /// Encodes the value as a JSON document.
    pub fn to_json(&self) -> (r: Json)
        ensures
            r@ == encode_connection(*self),
    {
        let mut members: Vec<(String, Json)> = Vec::new();
        members.push(("dependent".to_owned(), Json::Bool(self.dependent)));
        proof {
            lemma_object_view(members);
            assert(members.deep_view() =~= encode_connection(*self)->Object_0);
        }
        Json::Object(members)
    }

    /// Decodes a JSON document.
    pub fn from_json(j: &Json) -> (r: Result<ConnectionBehavior, DecodeError>)
        ensures
            r == decode_connection(j@),
    {
        match j {
            Json::Object(members) => {
                proof {
                    lemma_object_view(*members);
                }
                let dependent = get_bool(members, "dependent")?;
                Ok(ConnectionBehavior { dependent })
            },
            _ => Err(DecodeError::InvalidType),
        }
    }
}

/// The list of names under a key of a [`DisplaySchema`].
fn get_names(members: &Vec<(String, Json)>, key: &str) -> (r: Result<Vec<String>, DecodeError>)
    ensures
        match r {
            Ok(v) => names_or_empty(members.deep_view(), key@) == Ok::<_, DecodeError>(
                v.deep_view(),
            ),
            Err(e) => names_or_empty(members.deep_view(), key@) == Err::<Seq<Seq<char>>, _>(e),
        },
{
    match get(members, key) {
        Err(e) => Err(e),
        Ok(None) => {
            let empty: Vec<String> = Vec::new();
            proof {
                assert(empty.deep_view() =~= Seq::<Seq<char>>::empty());
            }
            Ok(empty)
        },
        Ok(Some(v)) => v.to_texts(),
    }
}

impl DisplaySchema {
    /// Encodes the value as a JSON document.
    pub fn to_json(&self) -> (r: Json)
        ensures
            r@ == encode_display(self@),
    {
        let mut members: Vec<(String, Json)> = Vec::new();
        members.push(("outputs".to_owned(), Json::texts(&self.outputs)));
        members.push(("inputs".to_owned(), Json::texts(&self.inputs)));
        members.push(("variables".to_owned(), Json::texts(&self.variables)));
        proof {
            lemma_object_view(members);
            assert(members.deep_view() =~= encode_display(self@)->Object_0);
        }
        Json::Object(members)
    }

    /// Decodes a JSON document.
    pub fn from_json(j: &Json) -> (r: Result<DisplaySchema, DecodeError>)
        ensures
            outcome(r) == decode_display(j@),
    {
        match j {
            Json::Object(members) => {
                proof {
                    lemma_object_view(*members);
                }
                let outputs = get_names(members, "outputs")?;
                let inputs = get_names(members, "inputs")?;
                let variables = get_names(members, "variables")?;
                Ok(DisplaySchema { outputs, inputs, variables })
            },
            _ => Err(DecodeError::InvalidType),
        }
    }
}

/// The keys and discriminants of this module are pairwise different texts.
pub proof fn lemma_behavior_texts_differ()
    ensures
        "type"@ != "pattern"@,
        "none"@ != "manual"@,
        "none"@ != "auto"@,
        "manual"@ != "auto"@,
        "supports_start_stop"@ != "supports_restart"@,
        "supports_start_stop"@ != "extendable_inputs"@,
        "supports_start_stop"@ != "loads_started"@,
        "supports_restart"@ != "extendable_inputs"@,
        "supports_restart"@ != "loads_started"@,
        "extendable_inputs"@ != "loads_started"@,
        "outputs"@ != "inputs"@,
        "outputs"@ != "variables"@,
        "inputs"@ != "variables"@,
{
    reveal_strlit("type");
    reveal_strlit("pattern");
    reveal_strlit("none");
    reveal_strlit("manual");
    reveal_strlit("auto");
    reveal_strlit("supports_start_stop");
    reveal_strlit("supports_restart");
    reveal_strlit("extendable_inputs");
    reveal_strlit("loads_started");
    reveal_strlit("outputs");
    reveal_strlit("inputs");
    reveal_strlit("variables");
    assert("type"@.len() == 4 && "pattern"@.len() == 7);
    assert("none"@.len() == 4 && "manual"@.len() == 6);
    assert("none"@[0] != "auto"@[0]);
    assert("supports_start_stop"@.len() == 19 && "supports_restart"@.len() == 16);
    assert("extendable_inputs"@.len() == 17 && "loads_started"@.len() == 13);
    assert("outputs"@.len() == 7 && "inputs"@.len() == 6 && "variables"@.len() == 9);
}

/// Decoding the encoding of any [`ExtendableInputs`] gives it back.
pub proof fn lemma_extendable_inputs_round_trip(v: ExtendableInputsView)
    ensures
        decode_extendable_inputs(encode_extendable_inputs(v)) == Ok::<_, DecodeError>(v),
{
    broadcast use {lemma_key_empty, lemma_key_one, lemma_key_concat};

    lemma_behavior_texts_differ();
}

/// Decoding the encoding of any [`PluginBehavior`] gives it back.
pub proof fn lemma_behavior_round_trip(v: PluginBehaviorView)
    ensures
        decode_behavior(encode_behavior(v)) == Ok::<_, DecodeError>(v),
{
    broadcast use {lemma_key_empty, lemma_key_one, lemma_key_concat};

    lemma_behavior_texts_differ();
    lemma_extendable_inputs_round_trip(v.extendable_inputs);
}

/// Decoding the encoding of any [`ConnectionBehavior`] gives it back.
pub proof fn lemma_connection_round_trip(v: ConnectionBehavior)
    ensures
        decode_connection(encode_connection(v)) == Ok::<_, DecodeError>(v),
{
    broadcast use {lemma_key_empty, lemma_key_one, lemma_key_concat};

}

/// Decoding the encoding of any [`DisplaySchema`] gives it back.
pub proof fn lemma_display_round_trip(v: DisplaySchemaView)
    ensures
        decode_display(encode_display(v)) == Ok::<_, DecodeError>(v),
{
    broadcast use {lemma_key_empty, lemma_key_one, lemma_key_concat};

    lemma_behavior_texts_differ();
    lemma_texts_round_trip(v.outputs);
    lemma_texts_round_trip(v.inputs);
    lemma_texts_round_trip(v.variables);
}

} // verus!
