use hyprquery::defaults::{defaults_listing, defaults_schema};
use hyprquery::error::ErrorKind;
use hyprquery::export::ExportFormat;

fn keys(ks: &[&str]) -> Vec<String> {
    ks.iter().map(|k| k.to_string()).collect()
}

#[test]
fn defaults_plain_lists_one_key_per_line() {
    let ks = keys(&["general:border_size", "decoration:rounding"]);
    assert_eq!(
        defaults_listing(&ks, ExportFormat::Plain),
        "general:border_size\ndecoration:rounding\n"
    );
    assert_eq!(defaults_listing(&ks, ExportFormat::Env), defaults_listing(&ks, ExportFormat::Plain));
}

#[test]
fn defaults_plain_without_keys_prints_nothing() {
    assert_eq!(defaults_listing(&Vec::new(), ExportFormat::Plain), "");
}

#[test]
fn defaults_json_is_a_pretty_array() {
    let ks = keys(&["a", "b:c"]);
    assert_eq!(defaults_listing(&ks, ExportFormat::Json), "[\n  \"a\",\n  \"b:c\"\n]\n");
    assert_eq!(defaults_listing(&Vec::new(), ExportFormat::Json), "[]\n");
}

#[test]
fn defaults_need_a_schema() {
    let e = defaults_schema(&None).unwrap_err();
    assert_eq!(e.kind, ErrorKind::NotFound);
    assert_eq!(e.message, "Schema file not found: Schema file required for --get-defaults");
    assert_eq!(defaults_schema(&Some("s.json".to_string())).unwrap(), "s.json");
}
