use rtsyn_plugin::json::{DecodeError, FloatBits, Json, Number};
use rtsyn_plugin::meta::ports_to_json;
use rtsyn_plugin::{PluginId, PluginMeta, Port, PortId};
use serde_json::Value;

fn to_value(j: &Json) -> Value {
    match j {
        Json::Null => Value::Null,
        Json::Bool(b) => Value::Bool(*b),
        Json::Number(Number::PosInt(u)) => Value::from(*u),
        Json::Number(Number::NegInt(i)) => Value::from(*i),
        Json::Number(Number::Float(f)) => Value::from(f64::from_bits(f.bits)),
        Json::String(s) => Value::String(s.clone()),
        Json::Array(items) => Value::Array(items.iter().map(to_value).collect()),
        Json::Object(members) => {
            Value::Object(members.iter().map(|(k, v)| (k.clone(), to_value(v))).collect())
        }
    }
}

fn from_value(v: &Value) -> Json {
    match v {
        Value::Null => Json::Null,
        Value::Bool(b) => Json::Bool(*b),
        Value::Number(n) => {
            if let Some(u) = n.as_u64() {
                Json::Number(Number::PosInt(u))
            } else if let Some(i) = n.as_i64() {
                Json::Number(Number::NegInt(i))
            } else {
                Json::Number(Number::Float(FloatBits { bits: n.as_f64().unwrap().to_bits() }))
            }
        }
        Value::String(s) => Json::String(s.clone()),
        Value::Array(items) => Json::Array(items.iter().map(from_value).collect()),
        Value::Object(members) => {
            Json::Object(members.iter().map(|(k, v)| (k.clone(), from_value(v))).collect())
        }
    }
}

fn to_text(j: &Json) -> String {
    serde_json::to_string(&to_value(j)).unwrap()
}

fn from_text(text: &str) -> Json {
    from_value(&serde_json::from_str::<Value>(text).unwrap())
}

fn sample_meta() -> PluginMeta {
    PluginMeta {
        name: "Test Plugin".to_string(),
        fixed_vars: vec![("rate".to_string(), Json::Number(Number::Float(FloatBits { bits: 2.5f64.to_bits() })))],
        default_vars: vec![
            ("test_var".to_string(), Json::integer(42)),
            ("nothing".to_string(), Json::Null),
            ("nested".to_string(), Json::Array(vec![Json::text("a"), Json::Bool(false)])),
        ],
    }
}

#[test]
fn meta_encoding_is_exact() {
    assert_eq!(
        to_text(&sample_meta().to_json()),
        r#"{"name":"Test Plugin","fixed_vars":[["rate",2.5]],"default_vars":[["test_var",42],["nothing",null],["nested",["a",false]]]}"#
    );
}

#[test]
fn meta_comes_back_from_its_encoding() {
    let meta = sample_meta();
    let back = PluginMeta::from_json(&from_text(&to_text(&meta.to_json()))).unwrap();
    assert_eq!(back.name, meta.name);
    assert_eq!(back.fixed_vars, meta.fixed_vars);
    assert_eq!(back.default_vars, meta.default_vars);
}

#[test]
fn meta_rejects_other_shapes() {
    let missing = from_text(r#"{"name":"n","fixed_vars":[]}"#);
    assert!(matches!(PluginMeta::from_json(&missing), Err(DecodeError::MissingField)));
    let long_pair = from_text(r#"{"name":"n","fixed_vars":[["a",1,2]],"default_vars":[]}"#);
    assert!(matches!(PluginMeta::from_json(&long_pair), Err(DecodeError::InvalidLength)));
    let bad_name = from_text(r#"{"name":"n","fixed_vars":[[1,1]],"default_vars":[]}"#);
    assert!(matches!(PluginMeta::from_json(&bad_name), Err(DecodeError::InvalidType)));
    let not_a_list = from_text(r#"{"name":"n","fixed_vars":{},"default_vars":[]}"#);
    assert!(matches!(PluginMeta::from_json(&not_a_list), Err(DecodeError::InvalidType)));
    assert!(matches!(PluginMeta::from_json(&Json::Null), Err(DecodeError::InvalidType)));
}

#[test]
fn identifiers_and_ports_have_plain_encodings() {
    assert_eq!(to_text(&PluginId(7).to_json()), "7");
    assert_eq!(PluginId::from_json(&from_text("18446744073709551615")), Ok(PluginId(u64::MAX)));
    assert_eq!(PluginId::from_json(&from_text("-1")), Err(DecodeError::OutOfRange));
    assert_eq!(PluginId::from_json(&from_text("1.5")), Err(DecodeError::InvalidType));
    assert_eq!(PluginId::from_json(&from_text("\"1\"")), Err(DecodeError::InvalidType));
    let id = PortId("in_0".to_string());
    assert_eq!(to_text(&id.to_json()), r#""in_0""#);
    assert_eq!(PortId::from_json(&id.to_json()), Ok(id.clone()));
    assert_eq!(PortId::from_json(&Json::integer(1)), Err(DecodeError::InvalidType));
    let port = Port { id };
    assert_eq!(to_text(&port.to_json()), r#"{"id":"in_0"}"#);
    assert_eq!(Port::from_json(&port.to_json()).unwrap().id, port.id);
    assert!(matches!(Port::from_json(&from_text("{}")), Err(DecodeError::MissingField)));
    assert!(matches!(Port::from_json(&from_text("[]")), Err(DecodeError::InvalidType)));
}

#[test]
fn ports_are_listed_in_order() {
    let ports = vec![
        Port { id: PortId("in_0".to_string()) },
        Port { id: PortId("in_2".to_string()) },
    ];
    assert_eq!(to_text(&ports_to_json(&ports)), r#"[{"id":"in_0"},{"id":"in_2"}]"#);
    assert_eq!(to_text(&ports_to_json(&[])), "[]");
}
