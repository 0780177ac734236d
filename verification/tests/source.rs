use hyprquery::source::{source_directive_path, source_directives, SourceVisits};

#[test]
fn directives_name_paths() {
    assert_eq!(source_directive_path("source = ~/.config/hypr/colors.conf").as_deref(),
        Some("~/.config/hypr/colors.conf"));
    assert_eq!(source_directive_path("  source=a.conf  # colors").as_deref(), Some("a.conf"));
    assert_eq!(source_directive_path("source = # nothing"), None);
    assert_eq!(source_directive_path("source"), None);
    assert_eq!(source_directive_path("key = value"), None);
    assert_eq!(source_directive_path("# source = x"), None);
    assert_eq!(source_directive_path("sources_dir = /tmp/b.conf"), None);
    assert_eq!(source_directive_path("sourced = x"), None);
    assert_eq!(source_directive_path("source\t= tabbed.conf").as_deref(), Some("tabbed.conf"));
}

#[test]
fn directives_of_a_file_in_order() {
    let content = "general {\n  gaps_in = 5\n}\nsource = a.conf\r\n\nsource = b/*.conf # more\nsource =\n";
    assert_eq!(source_directives(content), vec!["a.conf".to_string(), "b/*.conf".to_string()]);
    assert!(source_directives("").is_empty());
    assert_eq!(source_directives("source = last"), vec!["last".to_string()]);
}

#[test]
fn each_file_is_visited_once() {
    let mut visits = SourceVisits::new("/etc/hypr/hyprland.conf");
    assert!(visits.contains("/etc/hypr/hyprland.conf"));
    assert!(!visits.visit("/etc/hypr/hyprland.conf"));
    assert!(visits.visit("/etc/hypr/colors.conf"));
    assert!(!visits.visit("/etc/hypr/colors.conf"));
    assert!(visits.contains("/etc/hypr/colors.conf"));
    assert!(!visits.contains("/etc/hypr/other.conf"));
}

fn reference_directive(line: &str) -> Option<String> {
    let trimmed = line.trim();
    let eq_pos = trimmed.find('=')?;
    if trimmed[..eq_pos].trim() != "source" {
        return None;
    }
    let path_part = trimmed[eq_pos + 1..].trim();
    let path_part = path_part.split('#').next().unwrap_or("").trim();
    if path_part.is_empty() {
        None
    } else {
        Some(path_part.to_string())
    }
}

#[test]
fn directives_agree_with_str_methods() {
    let lines = [
        "source = a.conf",
        "\tsource=\u{2003}b.conf\u{a0}",
        "sourced = x # y",
        "source == x",
        "source = a # b # c",
        "source = ~/.config/hypr/*.conf",
        "  source  =  spaced name.conf  ",
        "source = #",
        "sources",
        "",
        "=source",
        "sources_dir = /tmp/b.conf",
        "source = x = y",
    ];
    for line in lines {
        assert_eq!(source_directive_path(line), reference_directive(line), "line {:?}", line);
    }
    let content = lines.join("\n");
    let expected: Vec<String> = content.lines().filter_map(reference_directive).collect();
    assert_eq!(source_directives(&content), expected);
}

#[test]
fn white_space_is_unicode_white_space() {
    for u in 0u32..0x11_0000 {
        if let Some(c) = char::from_u32(u) {
            assert_eq!(hyprquery::text::is_space_char(c), c.is_whitespace(), "U+{:04X}", u);
        }
    }
}
