use hyprquery::query::{parse_query_input, QueryResult};
use hyprquery::resolve::{
    check_parse, dynamic_key, dynamic_line, exit_code, has_dynamic, inject_dynamic_lines,
    lookup_key, resolve_all, resolve_lookup, resolve_query, variable_name, Found, Lookup,
};
use hyprquery::value::hash_string;

fn found(text: &str, ty: &str) -> Lookup {
    Lookup {
        found: Some(Found { text: text.to_string(), value_type: ty.to_string() }),
        variable: None,
    }
}

fn missing() -> Lookup {
    Lookup { found: None, variable: None }
}

#[test]
fn dynamic_keys_name_the_hash() {
    let key = dynamic_key("$terminal");
    assert_eq!(key, format!("Dynamic_{}", hash_string("$terminal")));
    let q = parse_query_input("$terminal");
    assert_eq!(lookup_key(&q), key);
    let q = parse_query_input("general:gaps_in");
    assert_eq!(lookup_key(&q), "general:gaps_in");
}

#[test]
fn injected_lines_follow_the_content() {
    let qs = vec![parse_query_input("general:a"), parse_query_input("$terminal")];
    assert!(has_dynamic(&qs));
    let out = inject_dynamic_lines("x = 1".to_string(), &qs);
    assert_eq!(out, format!("x = 1\nDynamic_{}=$terminal\n", hash_string("$terminal")));
    assert_eq!(dynamic_line("$t"), format!("\nDynamic_{}=$t\n", hash_string("$t")));
    let plain = vec![parse_query_input("general:a")];
    assert!(!has_dynamic(&plain));
    assert_eq!(inject_dynamic_lines("x".to_string(), &plain), "x");
}

#[test]
fn found_values_answer_queries() {
    let q = parse_query_input("general:border_size");
    let (v, t) = resolve_lookup(&q, found("2", "INT"));
    assert_eq!((v.as_str(), t.as_str()), ("2", "INT"));
    let (v, t) = resolve_lookup(&q, missing());
    assert_eq!((v.as_str(), t.as_str()), ("", "NULL"));
}

#[test]
fn unexpanded_variables_are_null() {
    let q = parse_query_input("$terminal");
    let (v, t) = resolve_lookup(&q, found("$terminal", "STRING"));
    assert_eq!((v.as_str(), t.as_str()), ("", "NULL"));
    let (v, t) = resolve_lookup(&q, found("kitty", "STRING"));
    assert_eq!((v.as_str(), t.as_str()), ("kitty", "STRING"));
}

#[test]
fn variables_fall_back_to_the_variable_table() {
    let q = parse_query_input("$terminal");
    assert_eq!(variable_name(&q), "terminal");
    let l = Lookup { found: None, variable: Some("foot".to_string()) };
    let (v, t) = resolve_lookup(&q, l);
    assert_eq!((v.as_str(), t.as_str()), ("foot", "STRING"));
    let (v, t) = resolve_lookup(&q, missing());
    assert_eq!((v.as_str(), t.as_str()), ("", "NULL"));
}

#[test]
fn queries_are_filtered_after_lookup() {
    let q = parse_query_input("general:border_size[STRING]");
    let r = resolve_query(&q, found("2", "INT")).unwrap();
    assert_eq!(r.key, "general:border_size");
    assert_eq!(r.value, "");
    assert_eq!(r.value_type, "NULL");
    let q = parse_query_input("general:border_size[int][^[1-5]$]");
    let r = resolve_query(&q, found("2", "INT")).unwrap();
    assert_eq!(r.value, "2");
    assert_eq!(r.value_type, "INT");
}

#[test]
fn a_bad_regex_fails_the_run() {
    let qs = vec![parse_query_input("a"), parse_query_input("b[INT][(]")];
    let r = resolve_all(&qs, vec![found("1", "INT"), found("2", "INT")]);
    let e = r.unwrap_err();
    assert!(e.message.starts_with("Invalid query format: "));
}

#[test]
fn all_queries_resolve_in_order() {
    let qs = vec![parse_query_input("a"), parse_query_input("b"), parse_query_input("c[FLOAT]")];
    let rs = resolve_all(&qs, vec![found("1", "INT"), missing(), found("x", "STRING")]).unwrap();
    let got: Vec<(String, String, String)> =
        rs.into_iter().map(|r| (r.key, r.value, r.value_type)).collect();
    assert_eq!(
        got,
        vec![
            ("a".to_string(), "1".to_string(), "INT".to_string()),
            ("b".to_string(), "".to_string(), "NULL".to_string()),
            ("c".to_string(), "".to_string(), "NULL".to_string()),
        ]
    );
}

fn result(value: &str, ty: &str) -> QueryResult {
    QueryResult { key: "k".to_string(), value: value.to_string(), value_type: ty.to_string() }
}

#[test]
fn null_results_fail_unless_allowed() {
    let rs = vec![result("1", "INT"), result("", "NULL")];
    assert_eq!(exit_code(&rs, false), 1);
    assert_eq!(exit_code(&rs, true), 0);
    let ok = vec![result("1", "INT")];
    assert_eq!(exit_code(&ok, false), 0);
    assert_eq!(exit_code(&Vec::new(), false), 0);
}

#[test]
fn parse_errors_matter_only_in_strict_mode() {
    assert!(check_parse(None, true).is_ok());
    assert!(check_parse(Some("bad line".to_string()), false).is_ok());
    let e = check_parse(Some("bad line".to_string()), true).unwrap_err();
    assert_eq!(e.message, "Failed to parse configuration: bad line");
}
