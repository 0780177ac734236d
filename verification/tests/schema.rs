use hyprquery::schema::{
    default_value, schema_defaults, schema_keys, DefaultValue, JsonNumber, JsonValue, Schema,
    SchemaData, SchemaOption,
};

fn int_json(i: i64) -> JsonValue {
    JsonValue::Number(JsonNumber { int: Some(i), float_bits: Some((i as f64).to_bits()) })
}

fn float(f: f64) -> JsonValue {
    JsonValue::Number(JsonNumber { int: None, float_bits: Some(f.to_bits()) })
}

fn option(key: &str, ty: &str, default: Option<JsonValue>) -> SchemaOption {
    SchemaOption {
        value: key.to_string(),
        option_type: ty.to_string(),
        data: SchemaData { default },
    }
}

#[test]
fn defaults_follow_the_type() {
    assert!(matches!(default_value("INT", &int_json(2)), Some(DefaultValue::Int(2))));
    assert!(matches!(default_value("BOOL", &JsonValue::Bool(true)), Some(DefaultValue::Int(1))));
    assert!(matches!(default_value("BOOL", &JsonValue::Bool(false)), Some(DefaultValue::Int(0))));
    assert!(matches!(default_value("FLOAT", &float(0.5)), Some(DefaultValue::Float(b)) if b == 0.5f64.to_bits()));
    assert!(matches!(default_value("FLOAT", &int_json(3)), Some(DefaultValue::Float(b)) if b == 3.0f64.to_bits()));
    assert!(matches!(default_value("COLOR", &JsonValue::String("0xffffffff".to_string())), Some(DefaultValue::Str(s)) if s == "0xffffffff"));
    assert!(matches!(
        default_value("VECTOR", &JsonValue::Array(vec![float(1.5), int_json(2)])),
        Some(DefaultValue::Vec2(x, y)) if x == 1.5f64.to_bits() && y == 2.0f64.to_bits()
    ));
}

#[test]
fn mismatched_defaults_are_skipped() {
    assert!(default_value("INT", &float(2.5)).is_none());
    assert!(default_value("INT", &JsonValue::String("2".to_string())).is_none());
    assert!(default_value("VECTOR", &JsonValue::Array(vec![int_json(1)])).is_none());
    assert!(default_value("STRING_SHORT", &JsonValue::Null).is_none());
    assert!(default_value("CHOICE", &int_json(1)).is_none());
}

#[test]
fn schema_defaults_in_order() {
    let schema = Schema {
        hyprlang_schema: vec![
            option("general:border_size", "INT", Some(int_json(2))),
            option("general:layout", "STRING_SHORT", None),
            option("general:gaps_in", "INT", Some(int_json(5))),
            option("misc:vrr", "BOOL", Some(JsonValue::Object)),
        ],
    };
    let defaults = schema_defaults(&schema);
    assert_eq!(defaults.len(), 2);
    assert_eq!(defaults[0].0, "general:border_size");
    assert!(matches!(defaults[0].1, DefaultValue::Int(2)));
    assert_eq!(defaults[1].0, "general:gaps_in");
    assert!(matches!(defaults[1].1, DefaultValue::Int(5)));
    assert_eq!(
        schema_keys(&schema),
        vec!["general:border_size", "general:layout", "general:gaps_in", "misc:vrr"]
    );
}
