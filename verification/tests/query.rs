use hyprquery::query::{normalize_type, parse_query_input, parse_query_inputs};

#[test]
fn plain_key_has_no_filters() {
    let q = parse_query_input("general:border_size");
    assert_eq!(q.query, "general:border_size");
    assert_eq!(q.expected_type, None);
    assert_eq!(q.expected_regex, None);
    assert!(!q.is_dynamic_variable);
}

#[test]
fn type_and_regex_hints() {
    let q = parse_query_input("general:border_size[INT][^[0-9]+$]");
    assert_eq!(q.query, "general:border_size");
    assert_eq!(q.expected_type.as_deref(), Some("INT"));
    assert_eq!(q.expected_regex.as_deref(), Some("^[0-9]+$"));
}

#[test]
fn type_hint_only() {
    let q = parse_query_input("decoration:rounding[INT]");
    assert_eq!(q.query, "decoration:rounding");
    assert_eq!(q.expected_type.as_deref(), Some("INT"));
    assert_eq!(q.expected_regex, None);
}

#[test]
fn regex_with_escapes() {
    let q = parse_query_input(r"gaps[INT][^\d+$]");
    assert_eq!(q.query, "gaps");
    assert_eq!(q.expected_type.as_deref(), Some("INT"));
    assert_eq!(q.expected_regex.as_deref(), Some(r"^\d+$"));
}

#[test]
fn empty_hints_are_no_filters() {
    let q = parse_query_input("key[][]");
    assert_eq!(q.query, "key");
    assert_eq!(q.expected_type, None);
    assert_eq!(q.expected_regex, None);
}

#[test]
fn malformed_hints_keep_the_whole_text() {
    let q = parse_query_input("key[INT");
    assert_eq!(q.query, "key[INT");
    assert_eq!(q.expected_type, None);
    let q = parse_query_input("key[INT]junk");
    assert_eq!(q.query, "key[INT]junk");
    let q = parse_query_input("[INT]");
    assert_eq!(q.query, "[INT]");
}

#[test]
fn variables_are_dynamic() {
    let q = parse_query_input("$terminal");
    assert_eq!(q.query, "$terminal");
    assert!(q.is_dynamic_variable);
    let q = parse_query_input("$terminal[STRING]");
    assert_eq!(q.query, "$terminal");
    assert!(q.is_dynamic_variable);
}

#[test]
fn parses_each_query_in_order() {
    let raws = vec!["a".to_string(), "b[INT]".to_string(), "$c".to_string()];
    let qs = parse_query_inputs(&raws);
    assert_eq!(qs.len(), 3);
    assert_eq!(qs[0].query, "a");
    assert_eq!(qs[1].query, "b");
    assert_eq!(qs[1].expected_type.as_deref(), Some("INT"));
    assert!(qs[2].is_dynamic_variable);
}

#[test]
fn type_names_normalize_to_upper_case() {
    assert_eq!(normalize_type("int"), "INT");
    assert_eq!(normalize_type("Vec2"), "VEC2");
}
