use hyprquery::export::{
    env_var_name, export_format, json_export, render_env, render_json, render_plain, ExportFormat, JsonExport,
};
use hyprquery::query::{parse_query_input, QueryResult};

fn result(key: &str, value: &str, ty: &str) -> QueryResult {
    QueryResult { key: key.to_string(), value: value.to_string(), value_type: ty.to_string() }
}

#[test]
fn plain_output_joins_values() {
    let rs = vec![result("a", "val1", "STRING"), result("b", "val2", "STRING")];
    assert_eq!(render_plain(&rs, ","), "val1,val2");
    assert_eq!(render_plain(&rs, "\n"), "val1\nval2");
}

#[test]
fn plain_output_blanks_null() {
    let rs = vec![result("a", "5", "INT"), result("b", "", "NULL"), result("c", "10", "INT")];
    assert_eq!(render_plain(&rs, "\n"), "5\n\n10");
    assert_eq!(render_plain(&Vec::new(), "\n"), "");
}

#[test]
fn env_names_come_from_queries() {
    assert_eq!(env_var_name("$terminal"), "TERMINAL");
    assert_eq!(env_var_name("general:border_size"), "GENERAL_BORDER_SIZE");
}

#[test]
fn env_output_skips_null() {
    let qs = vec![parse_query_input("$terminal"), parse_query_input("general:gaps_in")];
    let rs = vec![result("$terminal", "kitty", "STRING"), result("general:gaps_in", "", "NULL")];
    assert_eq!(render_env(&rs, &qs), vec!["TERMINAL=\"kitty\"".to_string()]);
}

#[test]
fn env_output_falls_back_to_keys() {
    let rs = vec![result("general:gaps_in", "5", "INT")];
    assert_eq!(render_env(&rs, &Vec::new()), vec!["GENERAL_GAPS_IN=\"5\"".to_string()]);
}

#[test]
fn json_single_result_is_an_object() {
    let rs = vec![result("general:border_size", "2", "INT")];
    match json_export(&rs) {
        JsonExport::Single(rec) => {
            assert_eq!(rec.key, "general:border_size");
            assert_eq!(rec.value.as_deref(), Some("2"));
            assert_eq!(rec.value_type, "INT");
        }
        JsonExport::List(_) => panic!("expected a single object"),
    }
}

#[test]
fn json_null_values_are_null() {
    let rs = vec![result("a", "1", "INT"), result("b", "", "NULL")];
    match json_export(&rs) {
        JsonExport::List(recs) => {
            assert_eq!(recs.len(), 2);
            assert_eq!(recs[0].value.as_deref(), Some("1"));
            assert_eq!(recs[1].value, None);
            assert_eq!(recs[1].value_type, "NULL");
        }
        JsonExport::Single(_) => panic!("expected an array"),
    }
    assert!(matches!(json_export(&Vec::new()), JsonExport::List(v) if v.is_empty()));
}

#[test]
fn export_option_selects_format() {
    assert_eq!(export_format(&Some("json".to_string())), ExportFormat::Json);
    assert_eq!(export_format(&Some("env".to_string())), ExportFormat::Env);
    assert_eq!(export_format(&Some("yaml".to_string())), ExportFormat::Plain);
    assert_eq!(export_format(&None), ExportFormat::Plain);
}

#[test]
fn json_output_single_result_is_an_object() {
    let rs = vec![result("general:border_size", "2", "INT")];
    assert_eq!(
        render_json(&rs),
        "{\n  \"key\": \"general:border_size\",\n  \"type\": \"INT\",\n  \"value\": \"2\"\n}"
    );
}

#[test]
fn json_output_null_value_is_json_null() {
    let rs = vec![result("missing", "", "NULL")];
    assert_eq!(
        render_json(&rs),
        "{\n  \"key\": \"missing\",\n  \"type\": \"NULL\",\n  \"value\": null\n}"
    );
}

#[test]
fn json_output_several_results_is_an_array() {
    let rs = vec![result("a", "1", "INT"), result("b", "", "NULL")];
    let expected = "[\n  {\n    \"key\": \"a\",\n    \"type\": \"INT\",\n    \"value\": \"1\"\n  },\n  {\n    \"key\": \"b\",\n    \"type\": \"NULL\",\n    \"value\": null\n  }\n]";
    assert_eq!(render_json(&rs), expected);
}

#[test]
fn json_output_without_results_is_an_empty_array() {
    assert_eq!(render_json(&Vec::new()), "[]");
}

#[test]
fn json_output_escapes_strings() {
    let rs = vec![result("k", "say \"hi\"", "STRING")];
    assert!(render_json(&rs).contains("\"value\": \"say \\\"hi\\\"\""));
}
