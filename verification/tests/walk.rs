use std::collections::HashMap;

use hyprquery::source::SourceVisits;
use hyprquery::walk::{SourceCandidate, SourceWalk, WalkAction};

/// Drives a walk over an in-memory set of files, each named by its full
/// path; a pattern resolves to `dir/pattern`, whose parent is the text
/// before its last `/`. Returns the files parsed, in
/// order, and the canonical paths skipped as already visited.
fn drive(files: &[(&str, &str)], root: &str) -> (Vec<String>, Vec<String>) {
    let fs: HashMap<String, String> =
        files.iter().map(|(p, c)| (p.to_string(), c.to_string())).collect();
    let mut walk = SourceWalk::new(SourceVisits::new(root));
    walk.read(&fs[root], "/cfg");
    let mut parsed = Vec::new();
    let mut skipped = Vec::new();
    loop {
        match walk.next() {
            WalkAction::Resolve { pattern, dir } => {
                let path = format!("{}/{}", dir, pattern);
                let candidate = SourceCandidate {
                    path: path.clone(),
                    canonical: path.clone(),
                    is_file: fs.contains_key(&path),
                    parent: path.rsplit_once('/').map(|(d, _)| d.to_string()),
                };
                walk.resolved(&vec![candidate]);
            }
            WalkAction::Parse { path, dir } => {
                parsed.push(path.clone());
                walk.read(&fs[&path], &dir);
            }
            WalkAction::Skip { canonical } => skipped.push(canonical),
            WalkAction::NotAFile => {}
            WalkAction::Done => return (parsed, skipped),
        }
    }
}

#[test]
fn walk_without_directives_parses_nothing() {
    let (parsed, skipped) = drive(&[("/cfg/main.conf", "general:gaps = 5\n")], "/cfg/main.conf");
    assert!(parsed.is_empty());
    assert!(skipped.is_empty());
}

#[test]
fn walk_goes_depth_first_in_order() {
    let files = [
        ("/cfg/main.conf", "source = a.conf\nsource = c.conf\n"),
        ("/cfg/a.conf", "source = b.conf\n"),
        ("/cfg/b.conf", "x = 1\n"),
        ("/cfg/c.conf", "y = 2\n"),
    ];
    let (parsed, _) = drive(&files, "/cfg/main.conf");
    assert_eq!(parsed, vec!["/cfg/a.conf", "/cfg/b.conf", "/cfg/c.conf"]);
}

#[test]
fn walk_cuts_cycles() {
    let files = [
        ("/cfg/main.conf", "source = a.conf\n"),
        ("/cfg/a.conf", "source = b.conf\nsource = main.conf\n"),
        ("/cfg/b.conf", "source = a.conf\n"),
    ];
    let (parsed, skipped) = drive(&files, "/cfg/main.conf");
    assert_eq!(parsed, vec!["/cfg/a.conf", "/cfg/b.conf"]);
    assert_eq!(skipped, vec!["/cfg/a.conf", "/cfg/main.conf"]);
}

#[test]
fn walk_parses_a_file_sourced_twice_once() {
    let files = [
        ("/cfg/main.conf", "source = a.conf\nsource = a.conf\n"),
        ("/cfg/a.conf", "x = 1\n"),
    ];
    let (parsed, skipped) = drive(&files, "/cfg/main.conf");
    assert_eq!(parsed, vec!["/cfg/a.conf"]);
    assert_eq!(skipped, vec!["/cfg/a.conf"]);
}

#[test]
fn walk_passes_over_missing_files() {
    let files = [("/cfg/main.conf", "source = gone.conf\nsource = a.conf\n"), ("/cfg/a.conf", "")];
    let (parsed, skipped) = drive(&files, "/cfg/main.conf");
    assert_eq!(parsed, vec!["/cfg/a.conf"]);
    assert!(skipped.is_empty());
}

#[test]
fn walk_resolves_in_the_sourced_files_directory() {
    let files = [
        ("/cfg/main.conf", "source = sub/a.conf\n"),
        ("/cfg/sub/a.conf", "source = b.conf\n"),
        ("/cfg/sub/b.conf", ""),
    ];
    let mut walk = SourceWalk::new(SourceVisits::new("/cfg/main.conf"));
    walk.read(files[0].1, "/cfg");
    match walk.next() {
        WalkAction::Resolve { pattern, dir } => {
            assert_eq!(pattern, "sub/a.conf");
            assert_eq!(dir, "/cfg");
        }
        _ => panic!("expected a directive"),
    }
    walk.resolved(&vec![SourceCandidate {
        path: "/cfg/sub/a.conf".to_string(),
        canonical: "/cfg/sub/a.conf".to_string(),
        is_file: true,
        parent: None,
    }]);
    match walk.next() {
        WalkAction::Parse { path, dir } => {
            assert_eq!(path, "/cfg/sub/a.conf");
            // Without a parent the directive's own directory is kept.
            assert_eq!(dir, "/cfg");
        }
        _ => panic!("expected a file to parse"),
    }
    assert!(matches!(walk.next(), WalkAction::Done));
    let (parsed, _) = drive(&files, "/cfg/main.conf");
    assert_eq!(parsed, vec!["/cfg/sub/a.conf", "/cfg/sub/b.conf"]);
}
