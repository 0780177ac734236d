use std::collections::hash_map::DefaultHasher;
use std::hash::{Hash, Hasher};

use hyprquery::value::{
    color_text, config_value_type_name, hash_string, int_text, u64_text, ConfigValue,
};

#[test]
fn test_hash_string_deterministic() {
    let hash1 = hash_string("test");
    let hash2 = hash_string("test");
    assert_eq!(hash1, hash2);
}

#[test]
fn test_hash_string_different() {
    let hash1 = hash_string("test1");
    let hash2 = hash_string("test2");
    assert_ne!(hash1, hash2);
}

#[test]
fn test_config_value_type_name() {
    assert_eq!(config_value_type_name(&ConfigValue::Int(1)), "INT");
    assert_eq!(config_value_type_name(&ConfigValue::Float(1.0f64.to_bits())), "FLOAT");
    assert_eq!(config_value_type_name(&ConfigValue::String("s".to_string())), "STRING");
}

#[test]
fn type_names_of_every_variant() {
    assert_eq!(
        config_value_type_name(&ConfigValue::Vec2(1.0f64.to_bits(), 2.0f64.to_bits())),
        "VEC2"
    );
    assert_eq!(config_value_type_name(&ConfigValue::Color(1, 2, 3, 4)), "COLOR");
    assert_eq!(config_value_type_name(&ConfigValue::Custom("gradient".to_string())), "CUSTOM");
}

#[test]
fn hash_matches_std_str_hash() {
    for s in ["", "test", "$terminal", "general:border_size", "ünïcode"] {
        let mut hasher = DefaultHasher::new();
        s.hash(&mut hasher);
        assert_eq!(hash_string(s), hasher.finish());
    }
}

#[test]
fn integers_render_in_decimal() {
    assert_eq!(int_text(42), "42");
    assert_eq!(int_text(0), "0");
    assert_eq!(int_text(-7), "-7");
    assert_eq!(int_text(i64::MIN), i64::MIN.to_string());
    assert_eq!(int_text(i64::MAX), i64::MAX.to_string());
    assert_eq!(u64_text(u64::MAX), u64::MAX.to_string());
    assert_eq!(u64_text(10), "10");
}

#[test]
fn colors_render_as_rgba() {
    assert_eq!(color_text(255, 0, 16, 128), "rgba(255, 0, 16, 128)");
}

#[test]
fn different_numbers_have_different_texts() {
    let texts: Vec<String> = [0u64, 1, 9, 10, 11, 100, 101, 1000].iter().map(|n| u64_text(*n)).collect();
    for i in 0..texts.len() {
        for j in 0..texts.len() {
            assert_eq!(i == j, texts[i] == texts[j]);
        }
    }
}
