use rtsyn_plugin::json::{FloatBits, Json, Number};
use rtsyn_plugin::ui::ffi::c_api::{
    rtsyn_behavior_to_json, rtsyn_ui_field_boolean, rtsyn_ui_field_filepath,
    rtsyn_ui_field_float, rtsyn_ui_field_free, rtsyn_ui_field_integer, rtsyn_ui_field_text,
    rtsyn_string_free, rtsyn_string_from_text, rtsyn_ui_schema_add_field, rtsyn_ui_schema_free,
    rtsyn_ui_schema_new, rtsyn_ui_schema_to_json, RTSynConfigField, RTSynUISchema,
    RTSYN_FILE_MODE_FOLDER, RTSYN_FILE_MODE_OPEN, RTSYN_FILE_MODE_SAVE,
};
use rtsyn_plugin::ui::schema::{ConfigField, FieldType, FileMode};
use serde_json::Value;

fn to_value(j: &Json) -> Value {
    match j {
        Json::Null => Value::Null,
        Json::Bool(b) => Value::Bool(*b),
        Json::Number(Number::PosInt(u)) => Value::from(*u),
        Json::Number(Number::NegInt(i)) => Value::from(*i),
        Json::Number(Number::Float(f)) => Value::from(f64::from_bits(f.bits)),
        Json::String(s) => Value::String(s.clone()),
        Json::Array(items) => Value::Array(items.iter().map(to_value).collect()),
        Json::Object(members) => {
            Value::Object(members.iter().map(|(k, v)| (k.clone(), to_value(v))).collect())
        }
    }
}

#[allow(dead_code)]
fn from_value(v: &Value) -> Json {
    match v {
        Value::Null => Json::Null,
        Value::Bool(b) => Json::Bool(*b),
        Value::Number(n) => {
            if let Some(u) = n.as_u64() {
                Json::Number(Number::PosInt(u))
            } else if let Some(i) = n.as_i64() {
                Json::Number(Number::NegInt(i))
            } else {
                Json::Number(Number::Float(FloatBits { bits: n.as_f64().unwrap().to_bits() }))
            }
        }
        Value::String(s) => Json::String(s.clone()),
        Value::Array(items) => Json::Array(items.iter().map(from_value).collect()),
        Value::Object(members) => {
            Json::Object(members.iter().map(|(k, v)| (k.clone(), from_value(v))).collect())
        }
    }
}

fn to_text(j: &Json) -> String {
    serde_json::to_string(&to_value(j)).unwrap()
}

#[allow(dead_code)]
fn from_text(text: &str) -> Json {
    from_value(&serde_json::from_str::<Value>(text).unwrap())
}

fn bits(x: f64) -> FloatBits {
    FloatBits { bits: x.to_bits() }
}

#[test]
fn test_ui_schema_lifecycle() {
    let schema = rtsyn_ui_schema_new();
    assert!(schema.schema.is_some());
    rtsyn_ui_schema_free(schema);
}

#[test]
fn test_field_text() {
    let key = "name".as_bytes();
    let label = "Name".as_bytes();
    let default_val = "test".as_bytes();

    let field = rtsyn_ui_field_text(Some(key), Some(label), Some(default_val));
    assert!(field.field.is_some());
    rtsyn_ui_field_free(field);
}

#[test]
fn test_field_integer() {
    let key = "count".as_bytes();
    let label = "Count".as_bytes();

    let field = rtsyn_ui_field_integer(Some(key), Some(label), 10, 0, 100);
    assert!(field.field.is_some());
    rtsyn_ui_field_free(field);
}

#[test]
fn test_schema_to_json() {
    let mut schema = rtsyn_ui_schema_new();

    let key = "name".as_bytes();
    let label = "Name".as_bytes();
    let mut field = rtsyn_ui_field_text(Some(key), Some(label), None);

    rtsyn_ui_schema_add_field(&mut schema, &mut field);

    let json = rtsyn_ui_schema_to_json(&schema);
    assert!(json.is_some());

    let json_str = to_text(&json.unwrap());
    assert!(json_str.contains("name"));
    assert!(json_str.contains("Name"));

    rtsyn_ui_schema_free(schema);
}

#[test]
fn test_behavior_to_json() {
    let pattern = "in_{}".as_bytes();
    let json = rtsyn_behavior_to_json(1, 0, 2, Some(pattern), 0, 1);

    let json_str = to_text(&json);
    assert!(json_str.contains("behavior"));
    assert!(json_str.contains("connection_dependent"));
}

#[test]
fn behavior_query_is_exact() {
    let json = rtsyn_behavior_to_json(1, 0, 2, Some("ch_{}".as_bytes()), 0, 7);
    assert_eq!(
        to_text(&json),
        r#"{"behavior":{"supports_start_stop":true,"supports_restart":false,"extendable_inputs":{"type":"auto","pattern":"ch_{}"},"loads_started":false},"connection_dependent":true}"#
    );
    let json = rtsyn_behavior_to_json(0, -1, 1, Some("ignored".as_bytes()), 1, 0);
    assert_eq!(
        to_text(&json),
        r#"{"behavior":{"supports_start_stop":false,"supports_restart":true,"extendable_inputs":{"type":"manual"},"loads_started":true},"connection_dependent":false}"#
    );
}

#[test]
fn behavior_query_falls_back_on_the_default_pattern() {
    let expected = r#"{"type":"auto","pattern":"in_{}"}"#;
    let json = rtsyn_behavior_to_json(1, 1, 2, None, 1, 0);
    assert!(to_text(&json).contains(expected));
    let json = rtsyn_behavior_to_json(1, 1, 2, Some(&[0xff, 0xfe]), 1, 0);
    assert!(to_text(&json).contains(expected));
    for unknown in [-1, 3, 99] {
        let json = rtsyn_behavior_to_json(1, 1, unknown, None, 1, 0);
        assert!(to_text(&json).contains(r#""extendable_inputs":{"type":"none"}"#));
    }
    let json = rtsyn_behavior_to_json(1, 1, 0, None, 1, 0);
    assert!(to_text(&json).contains(r#""extendable_inputs":{"type":"none"}"#));
}

#[test]
fn field_adapters_give_null_without_key_or_label() {
    let name = "n".as_bytes();
    let broken: &[u8] = &[0x66, 0xff];
    assert!(rtsyn_ui_field_text(None, Some(name), None).field.is_none());
    assert!(rtsyn_ui_field_text(Some(name), None, None).field.is_none());
    assert!(rtsyn_ui_field_text(Some(broken), Some(name), None).field.is_none());
    assert!(rtsyn_ui_field_text(Some(name), Some(broken), None).field.is_none());
    assert!(rtsyn_ui_field_integer(None, Some(name), 0, 0, 0).field.is_none());
    assert!(rtsyn_ui_field_integer(Some(name), Some(broken), 0, 0, 0).field.is_none());
    assert!(rtsyn_ui_field_float(None, None, bits(0.0), bits(0.0), bits(0.0)).field.is_none());
    assert!(rtsyn_ui_field_boolean(Some(broken), Some(name), 1).field.is_none());
    assert!(rtsyn_ui_field_filepath(Some(name), None, None, 0).field.is_none());
}

#[test]
fn text_adapter_copies_what_it_reads() {
    let field = rtsyn_ui_field_text(
        Some("cl\u{e9}".as_bytes()),
        Some("Label".as_bytes()),
        Some("d\u{e9}faut".as_bytes()),
    );
    assert_eq!(
        field.field,
        Some(ConfigField::text("cl\u{e9}", "Label").default_value(Json::text("d\u{e9}faut")))
    );
    let field = rtsyn_ui_field_text(Some("k".as_bytes()), Some("l".as_bytes()), Some(&[0xc3]));
    assert_eq!(field.field, Some(ConfigField::text("k", "l")));
}

#[test]
fn number_adapters_set_bounds_and_default() {
    let field = rtsyn_ui_field_integer(Some("k".as_bytes()), Some("l".as_bytes()), 10, -3, 100);
    assert_eq!(
        field.field,
        Some(ConfigField::integer("k", "l").min(-3).max(100).default_value(Json::integer(10)))
    );
    let field =
        rtsyn_ui_field_float(Some("k".as_bytes()), Some("l".as_bytes()), bits(0.5), bits(-1.0), bits(1.0));
    assert_eq!(
        field.field,
        Some(
            ConfigField::float("k", "l")
                .min_f(Number::Float(bits(-1.0)))
                .max_f(Number::Float(bits(1.0)))
                .default_value(Json::Number(Number::Float(bits(0.5))))
        )
    );
    let field = rtsyn_ui_field_float(
        Some("k".as_bytes()),
        Some("l".as_bytes()),
        bits(f64::NAN),
        bits(0.0),
        bits(1.0),
    );
    assert_eq!(field.field.unwrap().default, Some(Json::Null));
    let field = rtsyn_ui_field_boolean(Some("k".as_bytes()), Some("l".as_bytes()), 2);
    assert_eq!(field.field.unwrap().default, Some(Json::Bool(true)));
    let field = rtsyn_ui_field_boolean(Some("k".as_bytes()), Some("l".as_bytes()), 0);
    assert_eq!(field.field.unwrap().default, Some(Json::Bool(false)));
}

#[test]
fn filepath_adapter_maps_the_mode() {
    let cases = [
        (RTSYN_FILE_MODE_OPEN, FileMode::OpenFile),
        (RTSYN_FILE_MODE_SAVE, FileMode::SaveFile),
        (RTSYN_FILE_MODE_FOLDER, FileMode::SelectFolder),
        (3, FileMode::OpenFile),
        (-1, FileMode::OpenFile),
    ];
    for (number, mode) in cases {
        let field = rtsyn_ui_field_filepath(
            Some("k".as_bytes()),
            Some("l".as_bytes()),
            Some("/tmp/out.csv".as_bytes()),
            number,
        )
        .field
        .unwrap();
        assert_eq!(field.field_type, FieldType::FilePath { mode, filters: vec![] });
        assert_eq!(field.default, Some(Json::text("/tmp/out.csv")));
    }
    let field = rtsyn_ui_field_filepath(Some("k".as_bytes()), Some("l".as_bytes()), None, 1);
    assert_eq!(field.field.unwrap().default, None);
}

#[test]
fn attaching_a_field_moves_it_into_the_schema() {
    let mut schema = rtsyn_ui_schema_new();
    let mut first = rtsyn_ui_field_text(Some("a".as_bytes()), Some("A".as_bytes()), None);
    let mut second = rtsyn_ui_field_boolean(Some("b".as_bytes()), Some("B".as_bytes()), 1);
    rtsyn_ui_schema_add_field(&mut schema, &mut first);
    rtsyn_ui_schema_add_field(&mut schema, &mut second);
    assert!(first.field.is_none());
    assert!(second.field.is_none());
    let fields = &schema.schema.as_ref().unwrap().fields;
    assert_eq!(fields.len(), 2);
    assert_eq!(fields[0].key, "a");
    assert_eq!(fields[1].key, "b");
    rtsyn_ui_schema_add_field(&mut schema, &mut first);
    assert_eq!(schema.schema.as_ref().unwrap().fields.len(), 2);
}

#[test]
fn attaching_with_a_null_handle_changes_nothing() {
    let mut null_schema = RTSynUISchema { schema: None };
    let mut field = rtsyn_ui_field_text(Some("a".as_bytes()), Some("A".as_bytes()), None);
    rtsyn_ui_schema_add_field(&mut null_schema, &mut field);
    assert!(null_schema.schema.is_none());
    assert_eq!(field.field, Some(ConfigField::text("a", "A")));
    assert!(rtsyn_ui_schema_to_json(&null_schema).is_none());
    let mut schema = rtsyn_ui_schema_new();
    let mut null_field = RTSynConfigField { field: None };
    rtsyn_ui_schema_add_field(&mut schema, &mut null_field);
    assert!(schema.schema.as_ref().unwrap().fields.is_empty());
    assert_eq!(to_text(&rtsyn_ui_schema_to_json(&schema).unwrap()), r#"{"fields":[]}"#);
    rtsyn_ui_field_free(null_field);
    rtsyn_ui_schema_free(null_schema);
}

#[test]
fn outgoing_text_gets_its_terminator() {
    let json = to_text(&rtsyn_behavior_to_json(1, 1, 0, None, 1, 0));
    let handle = rtsyn_string_from_text(Some(json.clone()));
    let mut expected = json.into_bytes();
    expected.push(0);
    assert_eq!(handle.bytes, Some(expected));
    rtsyn_string_free(handle);
    assert_eq!(rtsyn_string_from_text(Some(String::new())).bytes, Some(vec![0]));
    assert_eq!(
        rtsyn_string_from_text(Some("h\u{e9}".to_string())).bytes,
        Some(vec![0x68, 0xc3, 0xa9, 0])
    );
}

#[test]
fn outgoing_text_with_a_zero_byte_gives_null() {
    assert_eq!(rtsyn_string_from_text(Some("a\u{0}b".to_string())).bytes, None);
    assert_eq!(rtsyn_string_from_text(Some("\u{0}".to_string())).bytes, None);
    assert_eq!(rtsyn_string_from_text(None).bytes, None);
}

#[test]
fn schema_built_through_the_adapters_encodes_its_field_flat() {
    let mut schema = rtsyn_ui_schema_new();
    let mut field = rtsyn_ui_field_text(Some("name".as_bytes()), Some("Name".as_bytes()), None);
    rtsyn_ui_schema_add_field(&mut schema, &mut field);
    let json = rtsyn_ui_schema_to_json(&schema).unwrap();
    assert_eq!(
        to_text(&json),
        r#"{"fields":[{"key":"name","label":"Name","type":"text","multiline":false}]}"#
    );
    assert_eq!(schema.schema.as_ref().unwrap().fields.len(), 1);
    rtsyn_ui_schema_free(schema);
}
