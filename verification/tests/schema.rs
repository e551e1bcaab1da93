use rtsyn_plugin::json::{DecodeError, FloatBits, Json, Number};
use rtsyn_plugin::ui::schema::{
    ConfigField, FieldType, FileMode, UISchema, DEFAULT_FLOAT_STEP_BITS,
};
use serde_json::Value;

fn to_value(j: &Json) -> Value {
    match j {
        Json::Null => Value::Null,
        Json::Bool(b) => Value::Bool(*b),
        Json::Number(Number::PosInt(u)) => Value::from(*u),
        Json::Number(Number::NegInt(i)) => Value::from(*i),
        Json::Number(Number::Float(f)) => Value::from(f64::from_bits(f.bits)),
        Json::String(s) => Value::String(s.clone()),
        Json::Array(items) => Value::Array(items.iter().map(to_value).collect()),
        Json::Object(members) => {
            Value::Object(members.iter().map(|(k, v)| (k.clone(), to_value(v))).collect())
        }
    }
}

fn from_value(v: &Value) -> Json {
    match v {
        Value::Null => Json::Null,
        Value::Bool(b) => Json::Bool(*b),
        Value::Number(n) => {
            if let Some(u) = n.as_u64() {
                Json::Number(Number::PosInt(u))
            } else if let Some(i) = n.as_i64() {
                Json::Number(Number::NegInt(i))
            } else {
                Json::Number(Number::Float(FloatBits { bits: n.as_f64().unwrap().to_bits() }))
            }
        }
        Value::String(s) => Json::String(s.clone()),
        Value::Array(items) => Json::Array(items.iter().map(from_value).collect()),
        Value::Object(members) => {
            Json::Object(members.iter().map(|(k, v)| (k.clone(), from_value(v))).collect())
        }
    }
}

fn to_text(j: &Json) -> String {
    serde_json::to_string(&to_value(j)).unwrap()
}

fn from_text(text: &str) -> Json {
    from_value(&serde_json::from_str::<Value>(text).unwrap())
}

fn float(x: f64) -> Number {
    Number::Float(FloatBits { bits: x.to_bits() })
}

fn every_kind_of_field() -> Vec<ConfigField> {
    vec![
        ConfigField::integer("i", "Integer").min(-5).max(i64::MAX).step(3),
        ConfigField::integer("i2", "Unbounded").default_value(Json::integer(i64::MIN)),
        ConfigField::float("f", "Float").min_f(float(-1.5)).step_f(float(0.25)),
        ConfigField::float("f2", "Float").max_f(Number::PosInt(7)),
        ConfigField::text("t", "Text").multiline().max_length(80).hint("a \"hint\""),
        ConfigField::text("t2", "Text \u{e9}").default_value(Json::text("x\ny")),
        ConfigField::boolean("b", "Boolean").default_value(Json::Bool(true)),
        ConfigField::filepath("p", "Path")
            .mode(FileMode::SelectFolder)
            .filter("CSV files", "*.csv")
            .filter("All files", "*"),
        ConfigField::dynamic_list("l", "List"),
        ConfigField::dynamic_list("l2", "Nested").add_label("More").item_type(
            FieldType::DynamicList {
                item_type: Box::new(FieldType::Integer { min: Some(0), max: None, step: 2 }),
                add_label: "Inner".to_string(),
            },
        ),
        ConfigField::new(
            "c",
            "Choice",
            FieldType::Choice { options: vec!["a".to_string(), "b".to_string()] },
        )
        .default_value(Json::Array(vec![Json::integer(1), Json::Object(vec![])])),
    ]
}

#[test]
fn ui_schema_builder() {
    let schema = UISchema::new()
        .field(ConfigField::text("name", "Name"))
        .field(ConfigField::integer("count", "Count"));

    assert_eq!(schema.fields.len(), 2);
    assert_eq!(schema.fields[0].key, "name");
    assert_eq!(schema.fields[1].key, "count");
}

#[test]
fn config_field_text() {
    let field = ConfigField::text("separator", "Separator")
        .default_value(Json::String(",".to_string()))
        .max_length(5)
        .hint("CSV separator");

    assert_eq!(field.key, "separator");
    assert_eq!(field.label, "Separator");
    assert_eq!(field.default, Some(Json::String(",".to_string())));
    assert_eq!(field.hint, Some("CSV separator".to_string()));

    if let FieldType::Text { max_length, .. } = field.field_type {
        assert_eq!(max_length, Some(5));
    } else {
        panic!("Expected Text field type");
    }
}

#[test]
fn config_field_integer() {
    let field = ConfigField::integer("priority", "Priority")
        .min(0)
        .max(99)
        .step(1)
        .default_value(Json::integer(10));

    if let FieldType::Integer { min, max, step } = field.field_type {
        assert_eq!(min, Some(0));
        assert_eq!(max, Some(99));
        assert_eq!(step, 1);
    } else {
        panic!("Expected Integer field type");
    }
}

#[test]
fn config_field_float() {
    let field = ConfigField::float("amplitude", "Amplitude")
        .min_f(float(0.0))
        .max_f(float(10.0))
        .step_f(float(0.1));

    if let FieldType::Float { min, max, step } = field.field_type {
        assert_eq!(min, Some(float(0.0)));
        assert_eq!(max, Some(float(10.0)));
        assert_eq!(step, float(0.1));
    } else {
        panic!("Expected Float field type");
    }
}

#[test]
fn config_field_filepath() {
    let field = ConfigField::filepath("path", "Output File")
        .mode(FileMode::SaveFile)
        .filter("CSV files", "*.csv")
        .filter("All files", "*");

    if let FieldType::FilePath { mode, filters } = field.field_type {
        assert_eq!(mode, FileMode::SaveFile);
        assert_eq!(filters.len(), 2);
        assert_eq!(filters[0].0, "CSV files");
        assert_eq!(filters[0].1, "*.csv");
    } else {
        panic!("Expected FilePath field type");
    }
}

#[test]
fn config_field_dynamic_list() {
    let field = ConfigField::dynamic_list("columns", "Columns")
        .item_type(FieldType::Text {
            multiline: false,
            max_length: Some(50),
        })
        .add_label("Add column");

    if let FieldType::DynamicList { item_type, add_label } = field.field_type {
        assert_eq!(add_label, "Add column");
        if let FieldType::Text { max_length, .. } = *item_type {
            assert_eq!(max_length, Some(50));
        } else {
            panic!("Expected Text item type");
        }
    } else {
        panic!("Expected DynamicList field type");
    }
}

#[test]
fn ui_schema_serialization() {
    let schema = UISchema::new()
        .field(ConfigField::text("name", "Name").default_value(Json::String("test".to_string())))
        .field(ConfigField::boolean("enabled", "Enabled"));

    let json = to_text(&schema.to_json());
    let deserialized = UISchema::from_json(&from_text(&json)).unwrap();

    assert_eq!(deserialized.fields.len(), 2);
    assert_eq!(deserialized.fields[0].key, "name");
    assert_eq!(deserialized.fields[1].key, "enabled");
}

#[test]
fn field_type_serialization() {
    let field_type = FieldType::Integer {
        min: Some(0),
        max: Some(100),
        step: 5,
    };

    let json = to_text(&field_type.to_json());
    assert!(json.contains(r#""kind":"integer"#));
    assert!(json.contains(r#""min":0"#));
    assert!(json.contains(r#""max":100"#));
    assert!(json.contains(r#""step":5"#));

    let deserialized = FieldType::from_json(&from_text(&json)).unwrap();
    if let FieldType::Integer { min, max, step } = deserialized {
        assert_eq!(min, Some(0));
        assert_eq!(max, Some(100));
        assert_eq!(step, 5);
    } else {
        panic!("Expected Integer field type");
    }
}

#[test]
fn file_mode_serialization() {
    let mode = FileMode::SaveFile;
    let json = to_text(&mode.to_json());
    assert_eq!(json, r#""savefile""#);

    let deserialized = FileMode::from_json(&from_text(&json)).unwrap();
    assert_eq!(deserialized, FileMode::SaveFile);
}

#[test]
fn constructors_fill_in_the_defaults() {
    assert_eq!(
        ConfigField::text("k", "L").field_type,
        FieldType::Text { multiline: false, max_length: None }
    );
    assert_eq!(
        ConfigField::integer("k", "L").field_type,
        FieldType::Integer { min: None, max: None, step: 1 }
    );
    assert_eq!(
        ConfigField::float("k", "L").field_type,
        FieldType::Float { min: None, max: None, step: float(0.1) }
    );
    assert_eq!(ConfigField::boolean("k", "L").field_type, FieldType::Boolean);
    assert_eq!(
        ConfigField::filepath("k", "L").field_type,
        FieldType::FilePath { mode: FileMode::OpenFile, filters: vec![] }
    );
    assert_eq!(
        ConfigField::dynamic_list("k", "L").field_type,
        FieldType::DynamicList {
            item_type: Box::new(FieldType::Text { multiline: false, max_length: None }),
            add_label: "Add".to_string(),
        }
    );
    let field = ConfigField::text("k", "L");
    assert_eq!(field.key, "k");
    assert_eq!(field.label, "L");
    assert_eq!(field.default, None);
    assert_eq!(field.hint, None);
    assert_eq!(f64::from_bits(DEFAULT_FLOAT_STEP_BITS), 0.1);
    assert!(UISchema::default().fields.is_empty());
}

#[test]
fn encodings_are_exact() {
    assert_eq!(
        to_text(&ConfigField::text("name", "Name").to_json()),
        r#"{"key":"name","label":"Name","type":"text","multiline":false}"#
    );
    assert_eq!(
        to_text(
            &ConfigField::integer("count", "Count")
                .min(0)
                .max(100)
                .default_value(Json::integer(10))
                .hint("How many")
                .to_json()
        ),
        r#"{"key":"count","label":"Count","type":"integer","min":0,"max":100,"step":1,"default":10,"hint":"How many"}"#
    );
    assert_eq!(
        to_text(&ConfigField::float("gain", "Gain").max_f(float(2.5)).to_json()),
        r#"{"key":"gain","label":"Gain","type":"float","max":2.5,"step":0.1}"#
    );
    assert_eq!(
        to_text(&ConfigField::text("t", "T").multiline().max_length(9).to_json()),
        r#"{"key":"t","label":"T","type":"text","multiline":true,"max_length":9}"#
    );
    assert_eq!(
        to_text(&ConfigField::boolean("b", "B").to_json()),
        r#"{"key":"b","label":"B","type":"boolean"}"#
    );
    assert_eq!(
        to_text(
            &ConfigField::filepath("p", "P")
                .mode(FileMode::SelectFolder)
                .filter("CSV files", "*.csv")
                .to_json()
        ),
        r#"{"key":"p","label":"P","type":"filepath","mode":"selectfolder","filters":[["CSV files","*.csv"]]}"#
    );
    assert_eq!(
        to_text(&ConfigField::dynamic_list("l", "L").to_json()),
        r#"{"key":"l","label":"L","type":"dynamiclist","item_type":{"kind":"text","multiline":false},"add_label":"Add"}"#
    );
    assert_eq!(
        to_text(&FieldType::Choice { options: vec!["a".to_string()] }.to_json()),
        r#"{"kind":"choice","options":["a"]}"#
    );
    assert_eq!(to_text(&FileMode::OpenFile.to_json()), r#""openfile""#);
    assert_eq!(to_text(&UISchema::new().to_json()), r#"{"fields":[]}"#);
}

#[test]
fn every_field_comes_back_from_its_encoding() {
    for field in every_kind_of_field() {
        let document = field.to_json();
        assert_eq!(ConfigField::from_json(&document), Ok(field.clone()));
        let through_text = from_text(&to_text(&document));
        assert_eq!(ConfigField::from_json(&through_text), Ok(field));
    }
    let mut schema = UISchema::new();
    for field in every_kind_of_field() {
        schema = schema.field(field);
    }
    assert_eq!(UISchema::from_json(&schema.to_json()), Ok(schema.clone()));
    assert_eq!(UISchema::from_json(&from_text(&to_text(&schema.to_json()))), Ok(schema));
    for mode in [FileMode::OpenFile, FileMode::SaveFile, FileMode::SelectFolder] {
        assert_eq!(FileMode::from_json(&mode.to_json()), Ok(mode));
    }
}

#[test]
fn mismatched_mutators_leave_the_encoding_alone() {
    for field in every_kind_of_field() {
        let before = field.to_json();
        let kind = field.field_type.clone();
        if !matches!(kind, FieldType::Text { .. }) {
            assert_eq!(field.clone().max_length(3).to_json(), before);
            assert_eq!(field.clone().multiline().to_json(), before);
        }
        if !matches!(kind, FieldType::Integer { .. }) {
            assert_eq!(field.clone().min(1).to_json(), before);
            assert_eq!(field.clone().max(2).to_json(), before);
            assert_eq!(field.clone().step(4).to_json(), before);
        }
        if !matches!(kind, FieldType::Float { .. }) {
            assert_eq!(field.clone().min_f(float(1.0)).to_json(), before);
            assert_eq!(field.clone().max_f(float(2.0)).to_json(), before);
            assert_eq!(field.clone().step_f(float(4.0)).to_json(), before);
        }
        if !matches!(kind, FieldType::FilePath { .. }) {
            assert_eq!(field.clone().mode(FileMode::SaveFile).to_json(), before);
            assert_eq!(field.clone().filter("n", "p").to_json(), before);
        }
        if !matches!(kind, FieldType::DynamicList { .. }) {
            assert_eq!(field.clone().item_type(FieldType::Boolean).to_json(), before);
            assert_eq!(field.clone().add_label("x").to_json(), before);
        }
    }
    let text = ConfigField::text("name", "Name").min(3);
    assert_eq!(
        to_text(&text.to_json()),
        r#"{"key":"name","label":"Name","type":"text","multiline":false}"#
    );
}

#[test]
fn matching_mutators_change_the_field() {
    let field = ConfigField::text("t", "T").min(1).multiline().max_length(4);
    assert_eq!(field.field_type, FieldType::Text { multiline: true, max_length: Some(4) });
    let field = ConfigField::filepath("p", "P").filter("a", "b").mode(FileMode::SaveFile);
    assert_eq!(
        field.field_type,
        FieldType::FilePath {
            mode: FileMode::SaveFile,
            filters: vec![("a".to_string(), "b".to_string())],
        }
    );
    let cloned = field.field_type.clone();
    assert_eq!(cloned, field.field_type);
}

#[test]
fn unknown_discriminants_are_errors() {
    let document = from_text(r#"{"kind":"colour"}"#);
    assert_eq!(FieldType::from_json(&document), Err(DecodeError::UnknownVariant));
    assert_eq!(FileMode::from_json(&Json::text("open")), Err(DecodeError::UnknownVariant));
    let field = from_text(r#"{"key":"k","label":"l","type":"Integer","step":1}"#);
    assert_eq!(ConfigField::from_json(&field), Err(DecodeError::UnknownVariant));
}

#[test]
fn each_decode_error_has_an_input() {
    assert_eq!(FieldType::from_json(&from_text("3")), Err(DecodeError::InvalidType));
    assert_eq!(FileMode::from_json(&Json::Null), Err(DecodeError::InvalidType));
    assert_eq!(
        FieldType::from_json(&from_text(r#"{"kind":"integer","step":1.5}"#)),
        Err(DecodeError::InvalidType)
    );
    assert_eq!(
        FieldType::from_json(&from_text(r#"{"kind":"integer"}"#)),
        Err(DecodeError::MissingField)
    );
    assert_eq!(
        FieldType::from_json(&from_text(r#"{"kind":"dynamiclist","add_label":"Add"}"#)),
        Err(DecodeError::MissingField)
    );
    assert_eq!(
        FieldType::from_json(&from_text(r#"{"kind":"integer","step":18446744073709551615}"#)),
        Err(DecodeError::OutOfRange)
    );
    assert_eq!(
        FieldType::from_json(&from_text(r#"{"kind":"text","multiline":false,"max_length":-1}"#)),
        Err(DecodeError::OutOfRange)
    );
    assert_eq!(
        FieldType::from_json(&from_text(
            r#"{"kind":"filepath","mode":"openfile","filters":[["a","b","c"]]}"#
        )),
        Err(DecodeError::InvalidLength)
    );
    assert_eq!(
        FieldType::from_json(&from_text(
            r#"{"kind":"filepath","mode":"openfile","filters":[["a",1]]}"#
        )),
        Err(DecodeError::InvalidType)
    );
    let twice = Json::Object(vec![
        ("kind".to_string(), Json::text("integer")),
        ("step".to_string(), Json::integer(1)),
        ("step".to_string(), Json::integer(2)),
    ]);
    assert_eq!(FieldType::from_json(&twice), Err(DecodeError::DuplicateField));
    assert_eq!(
        UISchema::from_json(&from_text(r#"{"fields":{}}"#)),
        Err(DecodeError::InvalidType)
    );
    assert_eq!(UISchema::from_json(&from_text("{}")), Err(DecodeError::MissingField));
    assert_eq!(
        UISchema::from_json(&from_text(
            r#"{"fields":[{"key":"k","label":"l","type":"boolean"},{"key":"k2"}]}"#
        )),
        Err(DecodeError::MissingField)
    );
}

#[test]
fn optional_attributes_may_be_absent_or_null() {
    let document =
        from_text(r#"{"kind":"integer","min":null,"step":2,"something":"else"}"#);
    assert_eq!(
        FieldType::from_json(&document),
        Ok(FieldType::Integer { min: None, max: None, step: 2 })
    );
    let field = from_text(
        r#"{"hint":null,"default":null,"type":"boolean","label":"l","key":"k"}"#,
    );
    assert_eq!(ConfigField::from_json(&field), Ok(ConfigField::boolean("k", "l")));
}

#[test]
fn float_attributes_take_any_json_number() {
    let document = from_text(r#"{"kind":"float","min":-2,"max":3,"step":0.5}"#);
    assert_eq!(
        FieldType::from_json(&document),
        Ok(FieldType::Float {
            min: Some(Number::NegInt(-2)),
            max: Some(Number::PosInt(3)),
            step: float(0.5),
        })
    );
}

#[test]
fn what_json_cannot_carry_does_not_come_back() {
    let field = ConfigField::float("f", "F").min_f(float(f64::NAN));
    assert_eq!(
        to_text(&field.to_json()),
        r#"{"key":"f","label":"F","type":"float","min":null,"step":0.1}"#
    );
    assert_eq!(ConfigField::from_json(&field.to_json()), Ok(ConfigField::float("f", "F")));
    let field = ConfigField::float("f", "F").step_f(float(f64::INFINITY));
    assert_eq!(ConfigField::from_json(&field.to_json()), Err(DecodeError::InvalidType));
    let field = ConfigField::boolean("b", "B").default_value(Json::Null);
    assert_eq!(to_text(&field.to_json()), r#"{"key":"b","label":"B","type":"boolean","default":null}"#);
    assert_eq!(ConfigField::from_json(&field.to_json()), Ok(ConfigField::boolean("b", "B")));
}

#[test]
fn numbers_convert_as_json_says() {
    assert_eq!(Number::from_i64(-1), Number::NegInt(-1));
    assert_eq!(Number::from_i64(0), Number::PosInt(0));
    assert_eq!(Number::from_u64(u64::MAX).as_i64(), Err(DecodeError::OutOfRange));
    assert_eq!(Number::from_usize(9).as_usize(), Ok(9));
    assert_eq!(Number::NegInt(-9).as_usize(), Err(DecodeError::OutOfRange));
    assert_eq!(float(1.0).as_i64(), Err(DecodeError::InvalidType));
    assert!(float(1.0e300).is_representable());
    assert!(!float(f64::NEG_INFINITY).is_representable());
    assert!(!float(f64::NAN).is_representable());
    assert!(Number::NegInt(-1).is_representable());
    assert!(!Number::NegInt(1).is_representable());
    assert_eq!(Number::NegInt(1).to_canonical(), Number::PosInt(1));
    assert_eq!(Number::NegInt(-1).to_canonical(), Number::NegInt(-1));
    assert_eq!(Json::number(Number::NegInt(3)), Json::Number(Number::PosInt(3)));
    assert!(FloatBits::new(0.0f64.to_bits()).is_finite());
    assert_eq!(Json::number(float(f64::NAN)), Json::Null);
    assert_eq!(Json::number(float(2.0)), Json::Number(float(2.0)));
    assert_eq!(Json::size(3), Json::Number(Number::PosInt(3)));
    assert!(Json::Null.is_null());
    assert_eq!(Json::text("a").to_text(), Ok("a".to_string()));
    assert_eq!(Json::Bool(true).to_bool(), Ok(true));
    assert_eq!(Json::integer(-4).to_i64(), Ok(-4));
    assert_eq!(Json::integer(4).to_usize(), Ok(4));
    assert_eq!(Json::integer(4).to_number(), Ok(Number::PosInt(4)));
    assert_eq!(Json::Null.to_number(), Err(DecodeError::InvalidType));
}

#[test]
fn a_field_is_one_object_with_the_discriminant_under_type() {
    let field = ConfigField::integer("count", "Count");
    assert_eq!(field.field_type, FieldType::Integer { min: None, max: None, step: 1 });
    assert_eq!(field.default, None);
    assert_eq!(field.hint, None);
    assert_eq!(
        to_text(&field.to_json()),
        r#"{"key":"count","label":"Count","type":"integer","step":1}"#
    );
    let shape = from_text(r#"{"key":"count","label":"Count","type":"integer","step":1}"#);
    assert_eq!(ConfigField::from_json(&shape), Ok(field));
    assert_eq!(FieldType::Boolean.discriminant(), "boolean");
    assert_eq!(
        FieldType::DynamicList { item_type: Box::new(FieldType::Boolean), add_label: String::new() }
            .discriminant(),
        "dynamiclist"
    );
}

#[test]
fn a_field_wants_a_text_under_type() {
    let nested = from_text(r#"{"key":"k","label":"l","type":{"kind":"boolean"}}"#);
    assert_eq!(ConfigField::from_json(&nested), Err(DecodeError::InvalidType));
    let missing = from_text(r#"{"key":"k","label":"l","kind":"boolean"}"#);
    assert_eq!(ConfigField::from_json(&missing), Err(DecodeError::MissingField));
    let no_step = from_text(r#"{"key":"k","label":"l","type":"integer"}"#);
    assert_eq!(ConfigField::from_json(&no_step), Err(DecodeError::MissingField));
    let alone = from_text(r#"{"type":"boolean"}"#);
    assert_eq!(FieldType::from_json(&alone), Err(DecodeError::MissingField));
}

#[test]
fn a_size_may_be_written_as_any_integer_from_zero_on() {
    assert_eq!(Number::NegInt(5).as_usize(), Ok(5));
    assert_eq!(Number::NegInt(0).as_usize(), Ok(0));
    assert_eq!(Number::NegInt(i64::MAX).as_usize(), Ok(i64::MAX as usize));
    assert_eq!(Number::NegInt(-5).as_usize(), Err(DecodeError::OutOfRange));
    assert_eq!(Number::PosInt(5).as_usize(), Ok(5));
    assert_eq!(Number::NegInt(5).as_u64(), Ok(5));
}
