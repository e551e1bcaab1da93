use rtsyn_plugin::json::{DecodeError, FloatBits, Json, Number};
use rtsyn_plugin::ui::behavior::{
    ConnectionBehavior, DisplaySchema, ExtendableInputs, PluginBehavior,
};
use serde_json::Value;

fn to_value(j: &Json) -> Value {
    match j {
        Json::Null => Value::Null,
        Json::Bool(b) => Value::Bool(*b),
        Json::Number(Number::PosInt(u)) => Value::from(*u),
        Json::Number(Number::NegInt(i)) => Value::from(*i),
        Json::Number(Number::Float(f)) => Value::from(f64::from_bits(f.bits)),
        Json::String(s) => Value::String(s.clone()),
        Json::Array(items) => Value::Array(items.iter().map(to_value).collect()),
        Json::Object(members) => {
            Value::Object(members.iter().map(|(k, v)| (k.clone(), to_value(v))).collect())
        }
    }
}

fn from_value(v: &Value) -> Json {
    match v {
        Value::Null => Json::Null,
        Value::Bool(b) => Json::Bool(*b),
        Value::Number(n) => {
            if let Some(u) = n.as_u64() {
                Json::Number(Number::PosInt(u))
            } else if let Some(i) = n.as_i64() {
                Json::Number(Number::NegInt(i))
            } else {
                Json::Number(Number::Float(FloatBits { bits: n.as_f64().unwrap().to_bits() }))
            }
        }
        Value::String(s) => Json::String(s.clone()),
        Value::Array(items) => Json::Array(items.iter().map(from_value).collect()),
        Value::Object(members) => {
            Json::Object(members.iter().map(|(k, v)| (k.clone(), from_value(v))).collect())
        }
    }
}

fn to_text(j: &Json) -> String {
    serde_json::to_string(&to_value(j)).unwrap()
}

fn from_text(text: &str) -> Json {
    from_value(&serde_json::from_str::<Value>(text).unwrap())
}

#[test]
fn behavior_default() {
    let behavior = PluginBehavior::default();
    assert!(behavior.supports_start_stop);
    assert!(behavior.supports_restart);
    assert_eq!(behavior.extendable_inputs, ExtendableInputs::Fixed);
    assert!(behavior.loads_started);
}

#[test]
fn extendable_inputs_serialization() {
    let none = ExtendableInputs::Fixed;
    let json = to_text(&none.to_json());
    assert_eq!(json, r#"{"type":"none"}"#);

    let manual = ExtendableInputs::Manual;
    let json = to_text(&manual.to_json());
    assert_eq!(json, r#"{"type":"manual"}"#);

    let auto = ExtendableInputs::Auto {
        pattern: "in_{}".to_string(),
    };
    let json = to_text(&auto.to_json());
    assert_eq!(json, r#"{"type":"auto","pattern":"in_{}"}"#);
}

#[test]
fn extendable_inputs_deserialization() {
    let json = r#"{"type":"none"}"#;
    let result = ExtendableInputs::from_json(&from_text(json)).unwrap();
    assert_eq!(result, ExtendableInputs::Fixed);

    let json = r#"{"type":"auto","pattern":"in_{}"}"#;
    let result = ExtendableInputs::from_json(&from_text(json)).unwrap();
    assert_eq!(
        result,
        ExtendableInputs::Auto {
            pattern: "in_{}".to_string()
        }
    );
}

#[test]
fn connection_behavior_default() {
    let behavior = ConnectionBehavior::default();
    assert!(!behavior.dependent);
}

#[test]
fn behavior_serialization_roundtrip() {
    let behavior = PluginBehavior {
        supports_start_stop: false,
        supports_restart: true,
        extendable_inputs: ExtendableInputs::Auto {
            pattern: "input_{}".to_string(),
        },
        loads_started: false,
    };

    let json = to_text(&behavior.to_json());
    let deserialized = PluginBehavior::from_json(&from_text(&json)).unwrap();
    assert_eq!(behavior, deserialized);
}

#[test]
fn behavior_encoding_is_exact() {
    let json = to_text(&PluginBehavior::default().to_json());
    assert_eq!(
        json,
        r#"{"supports_start_stop":true,"supports_restart":true,"extendable_inputs":{"type":"none"},"loads_started":true}"#
    );
    assert_eq!(
        to_text(&ConnectionBehavior { dependent: true }.to_json()),
        r#"{"dependent":true}"#
    );
}

#[test]
fn behavior_round_trip_for_every_combination() {
    let inputs = [
        ExtendableInputs::Fixed,
        ExtendableInputs::Manual,
        ExtendableInputs::Auto { pattern: "ch \"{}\" \u{e9}".to_string() },
    ];
    for extendable_inputs in inputs.iter() {
        for bits in 0..8u8 {
            let behavior = PluginBehavior {
                supports_start_stop: bits & 1 != 0,
                supports_restart: bits & 2 != 0,
                extendable_inputs: extendable_inputs.clone(),
                loads_started: bits & 4 != 0,
            };
            let document = behavior.to_json();
            assert_eq!(PluginBehavior::from_json(&document), Ok(behavior.clone()));
            let through_text = from_text(&to_text(&document));
            assert_eq!(PluginBehavior::from_json(&through_text), Ok(behavior));
        }
    }
    for dependent in [false, true] {
        let connection = ConnectionBehavior { dependent };
        assert_eq!(ConnectionBehavior::from_json(&connection.to_json()), Ok(connection));
    }
}

#[test]
fn extendable_inputs_rejects_what_it_does_not_know() {
    let unknown = from_text(r#"{"type":"sometimes"}"#);
    assert_eq!(ExtendableInputs::from_json(&unknown), Err(DecodeError::UnknownVariant));
    let missing_tag = from_text(r#"{"pattern":"in_{}"}"#);
    assert_eq!(ExtendableInputs::from_json(&missing_tag), Err(DecodeError::MissingField));
    let missing_pattern = from_text(r#"{"type":"auto"}"#);
    assert_eq!(ExtendableInputs::from_json(&missing_pattern), Err(DecodeError::MissingField));
    let wrong_kind = from_text(r#"{"type":7}"#);
    assert_eq!(ExtendableInputs::from_json(&wrong_kind), Err(DecodeError::InvalidType));
    assert_eq!(ExtendableInputs::from_json(&from_text("[]")), Err(DecodeError::InvalidType));
    let twice = Json::Object(vec![
        ("type".to_string(), Json::text("none")),
        ("type".to_string(), Json::text("manual")),
    ]);
    assert_eq!(ExtendableInputs::from_json(&twice), Err(DecodeError::DuplicateField));
}

#[test]
fn extendable_inputs_passes_over_other_keys() {
    let document = from_text(r#"{"note":1,"pattern":"p","type":"manual"}"#);
    assert_eq!(ExtendableInputs::from_json(&document), Ok(ExtendableInputs::Manual));
}

#[test]
fn behavior_needs_all_four_fields() {
    let document = from_text(
        r#"{"supports_start_stop":true,"supports_restart":true,"extendable_inputs":{"type":"none"}}"#,
    );
    assert_eq!(PluginBehavior::from_json(&document), Err(DecodeError::MissingField));
    let document = from_text(
        r#"{"supports_start_stop":1,"supports_restart":true,"extendable_inputs":{"type":"none"},"loads_started":true}"#,
    );
    assert_eq!(PluginBehavior::from_json(&document), Err(DecodeError::InvalidType));
    assert_eq!(ConnectionBehavior::from_json(&from_text("{}")), Err(DecodeError::MissingField));
}

#[test]
fn display_schema_lists_default_to_empty() {
    let schema = DisplaySchema::from_json(&from_text(r#"{"inputs":["a","b"]}"#)).unwrap();
    assert!(schema.outputs.is_empty());
    assert_eq!(schema.inputs, vec!["a".to_string(), "b".to_string()]);
    assert!(schema.variables.is_empty());
    assert_eq!(
        to_text(&schema.to_json()),
        r#"{"outputs":[],"inputs":["a","b"],"variables":[]}"#
    );
    let back = DisplaySchema::from_json(&schema.to_json()).unwrap();
    assert_eq!(back.inputs, schema.inputs);
    let bad = from_text(r#"{"inputs":["a",2]}"#);
    assert!(matches!(DisplaySchema::from_json(&bad), Err(DecodeError::InvalidType)));
    let null = from_text(r#"{"outputs":null}"#);
    assert!(matches!(DisplaySchema::from_json(&null), Err(DecodeError::InvalidType)));
}
