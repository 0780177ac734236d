use hyprquery::path::{expand_path, full_pattern, glob_pattern, join_path, resolved_sources, strip_quotes};

#[test]
fn quotes_are_stripped() {
    assert_eq!(strip_quotes("\"/tmp/a b.conf\""), "/tmp/a b.conf");
    assert_eq!(strip_quotes("'x'"), "x");
    assert_eq!(strip_quotes("\"x'"), "\"x'");
    assert_eq!(strip_quotes("\"\""), "");
    assert_eq!(strip_quotes(""), "");
}

#[test]
fn plain_paths_expand_to_themselves() {
    assert_eq!(expand_path("/etc/hypr/hyprland.conf").unwrap(), "/etc/hypr/hyprland.conf");
    assert_eq!(expand_path("'relative/file.conf'").unwrap(), "relative/file.conf");
}

#[test]
fn unknown_variables_are_path_errors() {
    let e = expand_path("$HYPRQUERY_SURELY_UNSET_VARIABLE/x").unwrap_err();
    assert!(e.message.starts_with("Path resolution error: "));
}

#[test]
fn relative_patterns_join_the_base() {
    assert_eq!(join_path("/etc/hypr", "a.conf"), "/etc/hypr/a.conf");
    assert_eq!(join_path("/etc/hypr/", "a.conf"), "/etc/hypr/a.conf");
    assert_eq!(join_path("", "a.conf"), "a.conf");
    assert_eq!(full_pattern("/abs/*.conf", "/etc/hypr"), "/abs/*.conf");
    assert_eq!(full_pattern("conf.d/*.conf", "/etc/hypr"), "/etc/hypr/conf.d/*.conf");
    assert_eq!(glob_pattern("conf.d/*.conf", "/etc/hypr").unwrap(), "/etc/hypr/conf.d/*.conf");
}

#[test]
fn join_agrees_with_std() {
    for (base, rel) in [("/etc/hypr", "a.conf"), ("/etc/hypr/", "b/c.conf"), ("rel", "x")] {
        let ours = join_path(base, rel);
        let std = std::path::Path::new(base).join(rel).display().to_string();
        assert_eq!(ours, std);
    }
}

#[test]
fn empty_globs_fall_back_to_the_pattern() {
    let none: Vec<String> = Vec::new();
    assert_eq!(resolved_sources(none.clone(), "/d/x.conf".to_string(), true), vec!["/d/x.conf".to_string()]);
    assert!(resolved_sources(none, "/d/x.conf".to_string(), false).is_empty());
    let some = vec!["/d/a.conf".to_string()];
    assert_eq!(resolved_sources(some.clone(), "/d/*.conf".to_string(), true), some);
}

#[test]
fn tilde_expands_to_the_home_directory() {
    let expanded = expand_path("~/hypr.conf").unwrap();
    assert_ne!(expanded, "~/hypr.conf");
    assert!(expanded.ends_with("/hypr.conf"));
}

#[test]
fn home_patterns_are_not_joined() {
    let pattern = glob_pattern("~/conf.d/*.conf", "/etc/hypr").unwrap();
    assert!(pattern.ends_with("/conf.d/*.conf"));
    assert!(!pattern.starts_with("/etc/hypr"));
}

#[test]
fn tilde_and_dollar_keep_the_text_before_the_dollar() {
    let expanded = expand_path("~/a$$b").unwrap();
    assert!(expanded.ends_with("/a$b"));
    assert!(!expanded.contains("$$"));
}
