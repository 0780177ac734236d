use hyprquery::filter::apply_filters;

#[test]
fn test_apply_filters_no_filters() {
    let result = apply_filters("Gruvbox-Retro".to_string(), "STRING", &None, &None);
    assert!(result.is_ok());
    let (value, type_str) = result.unwrap();
    assert_eq!(value, "Gruvbox-Retro");
    assert_eq!(type_str, "STRING");
}

#[test]
fn test_apply_filters_type_match_int() {
    let result = apply_filters("2".to_string(), "INT", &Some("INT".to_string()), &None);
    assert!(result.is_ok());
    let (value, type_str) = result.unwrap();
    assert_eq!(value, "2");
    assert_eq!(type_str, "INT");
}

#[test]
fn test_apply_filters_type_mismatch() {
    let result = apply_filters(
        "Gruvbox-Retro".to_string(),
        "STRING",
        &Some("INT".to_string()),
        &None
    );
    assert!(result.is_ok());
    let (value, type_str) = result.unwrap();
    assert_eq!(value, "");
    assert_eq!(type_str, "NULL");
}

#[test]
fn test_apply_filters_regex_match_cursor_size() {
    let result = apply_filters("20".to_string(), "INT", &None, &Some(r"^\d+$".to_string()));
    assert!(result.is_ok());
    let (value, type_str) = result.unwrap();
    assert_eq!(value, "20");
    assert_eq!(type_str, "INT");
}

#[test]
fn test_apply_filters_regex_no_match() {
    let result = apply_filters(
        "prefer-dark".to_string(),
        "STRING",
        &None,
        &Some(r"^prefer-light$".to_string())
    );
    assert!(result.is_ok());
    let (value, type_str) = result.unwrap();
    assert_eq!(value, "");
    assert_eq!(type_str, "NULL");
}

#[test]
fn test_apply_filters_type_and_regex_match() {
    let result = apply_filters(
        "3".to_string(),
        "INT",
        &Some("INT".to_string()),
        &Some(r"^[0-9]+$".to_string())
    );
    assert!(result.is_ok());
    let (value, type_str) = result.unwrap();
    assert_eq!(value, "3");
    assert_eq!(type_str, "INT");
}

#[test]
fn test_apply_filters_invalid_regex() {
    let result = apply_filters("value".to_string(), "STRING", &None, &Some("[".to_string()));
    assert!(result.is_err());
}

#[test]
fn test_apply_filters_border_size() {
    let result = apply_filters(
        "2".to_string(),
        "INT",
        &Some("INT".to_string()),
        &Some(r"^[1-5]$".to_string())
    );
    assert!(result.is_ok());
    let (value, _) = result.unwrap();
    assert_eq!(value, "2");
}

#[test]
fn test_apply_filters_gaps_value() {
    let result = apply_filters("8".to_string(), "INT", &Some("int".to_string()), &None);
    assert!(result.is_ok());
    let (value, type_str) = result.unwrap();
    assert_eq!(value, "8");
    assert_eq!(type_str, "INT");
}

#[test]
fn test_apply_filters_theme_name_regex() {
    let result = apply_filters(
        "Gruvbox-Plus-Dark".to_string(),
        "STRING",
        &None,
        &Some(r"^Gruvbox.*$".to_string())
    );
    assert!(result.is_ok());
    let (value, _) = result.unwrap();
    assert_eq!(value, "Gruvbox-Plus-Dark");
}

#[test]
fn test_apply_filters_color_scheme() {
    let result = apply_filters(
        "prefer-dark".to_string(),
        "STRING",
        &Some("STRING".to_string()),
        &Some(r"^prefer-(dark|light)$".to_string())
    );
    assert!(result.is_ok());
    let (value, _) = result.unwrap();
    assert_eq!(value, "prefer-dark");
}

#[test]
fn test_apply_filters_rounding_value() {
    let result = apply_filters("3".to_string(), "INT", &None, &Some(r"^\d$".to_string()));
    assert!(result.is_ok());
    let (value, _) = result.unwrap();
    assert_eq!(value, "3");
}
