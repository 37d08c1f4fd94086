use gst::item::FileItem;
use gst::listing::parse_listing;

fn pairs(items: &[FileItem]) -> Vec<(String, bool)> {
    items.iter().map(|f| (f.path.clone(), f.skipped)).collect()
}

#[test]
fn parses_tags_and_paths() {
    let r = parse_listing("H src/main.rs\nS config/local.toml\nH README.md\n");
    assert_eq!(
        pairs(&r),
        vec![
            ("src/main.rs".to_string(), false),
            ("config/local.toml".to_string(), true),
            ("README.md".to_string(), false),
        ]
    );
}

#[test]
fn empty_listing_gives_nothing() {
    assert!(parse_listing("").is_empty());
    assert!(parse_listing("\n\n").is_empty());
}

#[test]
fn short_lines_are_dropped() {
    let r = parse_listing("H \nS\nH a\nxy\n");
    assert_eq!(pairs(&r), vec![("a".to_string(), false)]);
}

#[test]
fn last_line_needs_no_newline() {
    let r = parse_listing("S one\nS two");
    assert_eq!(
        pairs(&r),
        vec![("one".to_string(), true), ("two".to_string(), true)]
    );
}

#[test]
fn crlf_line_ends_are_stripped() {
    let r = parse_listing("S a b\r\nH c\r\r\nH d\r");
    assert_eq!(
        pairs(&r),
        vec![
            ("a b".to_string(), true),
            ("c\r".to_string(), false),
            ("d\r".to_string(), false),
        ]
    );
}

#[test]
fn only_capital_s_marks_skipped() {
    let r = parse_listing("s low\nM mod\nS up\n");
    assert_eq!(
        pairs(&r),
        vec![
            ("low".to_string(), false),
            ("mod".to_string(), false),
            ("up".to_string(), true),
        ]
    );
}

#[test]
fn non_ascii_paths_are_kept_whole() {
    let r = parse_listing("S d\u{e9}j\u{e0}/\u{1f600}.txt\n");
    assert_eq!(pairs(&r), vec![("d\u{e9}j\u{e0}/\u{1f600}.txt".to_string(), true)]);
}

#[test]
fn label_shows_marker_and_path() {
    let on = FileItem { path: "a/b.rs".to_string(), skipped: true };
    let off = FileItem { path: "c".to_string(), skipped: false };
    assert_eq!(on.label(), "[x] a/b.rs");
    assert_eq!(off.label(), "[ ] c");
}
