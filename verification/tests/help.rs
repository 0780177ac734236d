use hyprquery::help::{help_text, print_help, HELP_FOOTER, HELP_HEADER, HELP_USAGE};

#[test]
fn help_holds_every_section() {
    let text = help_text();
    assert!(text.starts_with(HELP_HEADER));
    assert!(text.contains(HELP_USAGE));
    assert!(text.ends_with(&format!("{}\n", HELP_FOOTER)));
    assert!(text.contains("QUERY FORMAT:"));
    assert!(text.contains("EXIT CODES:"));
    print_help();
}
