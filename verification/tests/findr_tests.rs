use findr::classify_entry;
use findr::entry_included;
use findr::join_lines;
use findr::parse_entry_type;
use findr::search_root;
use findr::Config;
use findr::ConfigError;
use findr::EntryType;
use findr::Pattern;
use findr::WalkEntry;
use findr::WalkItem;

fn strings(v: &[&str]) -> Vec<String> {
    v.iter().map(|s| s.to_string()).collect()
}

fn build(paths: &[&str], names: &[&str], tags: &[&str]) -> Config {
    match Config::build(strings(paths), strings(names), strings(tags)) {
        Ok(c) => c,
        Err(_) => panic!("configuration unexpectedly rejected"),
    }
}

fn entry(path: &str, base: &str, t: EntryType) -> WalkItem {
    WalkItem::Entry(WalkEntry {
        path: path.to_string(),
        base_name: base.to_string(),
        entry_type: t,
    })
}

fn scenario_items() -> Vec<WalkItem> {
    vec![
        entry("top", "top", EntryType::Dir),
        entry("top/foo.txt", "foo.txt", EntryType::File),
        entry("top/bar", "bar", EntryType::Dir),
        entry("top/bar/baz.txt", "baz.txt", EntryType::File),
        entry("top/link", "link", EntryType::Link),
    ]
}

#[test]
fn parse_entry_type_accepts_the_three_tags() {
    assert_eq!(parse_entry_type("f"), Some(EntryType::File));
    assert_eq!(parse_entry_type("d"), Some(EntryType::Dir));
    assert_eq!(parse_entry_type("l"), Some(EntryType::Link));
}

#[test]
fn parse_entry_type_rejects_other_tags() {
    assert_eq!(parse_entry_type("x"), None);
    assert_eq!(parse_entry_type(""), None);
    assert_eq!(parse_entry_type("fd"), None);
}

#[test]
fn classify_never_follows_symlinks() {
    assert_eq!(classify_entry(true, true), EntryType::Link);
    assert_eq!(classify_entry(true, false), EntryType::Link);
    assert_eq!(classify_entry(false, true), EntryType::Dir);
    assert_eq!(classify_entry(false, false), EntryType::File);
}

#[test]
fn symlink_to_directory_fails_dir_filter_passes_link_filter() {
    let link = WalkEntry {
        path: "top/link".to_string(),
        base_name: "link".to_string(),
        entry_type: classify_entry(true, true),
    };
    let want_dirs = build(&["top"], &[], &["d"]);
    assert!(!entry_included(&want_dirs, &link));
    let want_links = build(&["top"], &[], &["l"]);
    assert!(entry_included(&want_links, &link));
}

#[test]
fn empty_filters_include_everything() {
    let c = build(&["top"], &[], &[]);
    let out = search_root(&c, &scenario_items());
    assert_eq!(
        out.matches,
        strings(&["top", "top/foo.txt", "top/bar", "top/bar/baz.txt", "top/link"])
    );
    assert_eq!(out.errors, strings(&[]));
}

#[test]
fn adding_a_type_keeps_entries_of_that_type() {
    let file = WalkEntry {
        path: "top/foo.txt".to_string(),
        base_name: "foo.txt".to_string(),
        entry_type: EntryType::File,
    };
    let just_files = build(&["top"], &[], &["f"]);
    assert!(entry_included(&just_files, &file));
    let files_and_dirs = build(&["top"], &[], &["f", "d"]);
    assert!(entry_included(&files_and_dirs, &file));
}

#[test]
fn name_patterns_are_an_or() {
    let c = build(&["top"], &["^a", "^b"], &[]);
    let apple = WalkEntry {
        path: "top/apple".to_string(),
        base_name: "apple".to_string(),
        entry_type: EntryType::File,
    };
    let banana = WalkEntry {
        path: "top/banana".to_string(),
        base_name: "banana".to_string(),
        entry_type: EntryType::File,
    };
    let cherry = WalkEntry {
        path: "top/cherry".to_string(),
        base_name: "cherry".to_string(),
        entry_type: EntryType::File,
    };
    assert!(entry_included(&c, &apple));
    assert!(entry_included(&c, &banana));
    assert!(!entry_included(&c, &cherry));
}

#[test]
fn name_filter_reads_base_name_not_path() {
    let c = build(&["top"], &["^ba"], &[]);
    let inside_bar = WalkEntry {
        path: "top/bar/foo.txt".to_string(),
        base_name: "foo.txt".to_string(),
        entry_type: EntryType::File,
    };
    assert!(!entry_included(&c, &inside_bar));
    let bar = WalkEntry {
        path: "top/bar".to_string(),
        base_name: "bar".to_string(),
        entry_type: EntryType::Dir,
    };
    assert!(entry_included(&c, &bar));
}

#[test]
fn pattern_match_is_partial_not_anchored() {
    let p = Pattern::new("ar").expect("valid pattern");
    assert!(p.is_match("bar"));
    assert!(p.is_match("barn"));
    assert!(!p.is_match("foo"));
}

#[test]
fn invalid_pattern_is_a_config_error() {
    let r = Config::build(strings(&["top"]), strings(&["("]), strings(&[]));
    match r {
        Err(ConfigError::InvalidName(n)) => {
            assert_eq!(n, "(");
            assert_eq!(
                ConfigError::InvalidName(n).message(),
                "Invalid --name \"(\""
            );
        }
        _ => panic!("expected an invalid-name error"),
    }
}

#[test]
fn invalid_type_tag_is_a_config_error() {
    let r = Config::build(strings(&["top"]), strings(&["^a"]), strings(&["x"]));
    match r {
        Err(ConfigError::InvalidType(t)) => {
            assert_eq!(t, "x");
            assert_eq!(
                ConfigError::InvalidType(t).message(),
                "Invalid --type \"x\""
            );
        }
        _ => panic!("expected an invalid-type error"),
    }
}

#[test]
fn invalid_pattern_reported_before_invalid_type() {
    let r = Config::build(strings(&["top"]), strings(&["("]), strings(&["x"]));
    assert!(matches!(r, Err(ConfigError::InvalidName(_))));
}

#[test]
fn missing_paths_default_to_current_directory() {
    let c = build(&[], &[], &[]);
    assert_eq!(c.paths, strings(&["."]));
}

#[test]
fn scenario_type_filter_files_only() {
    let c = build(&["top"], &[], &["f"]);
    let out = search_root(&c, &scenario_items());
    assert_eq!(out.matches, strings(&["top/foo.txt", "top/bar/baz.txt"]));
}

#[test]
fn scenario_name_filter_ba_prefix() {
    let c = build(&["top"], &["^ba"], &[]);
    let out = search_root(&c, &scenario_items());
    assert_eq!(out.matches, strings(&["top/bar", "top/bar/baz.txt"]));
}

#[test]
fn an_error_item_suppresses_nothing_else() {
    let c = build(&["top"], &[], &["f"]);
    let mut with_error = scenario_items();
    with_error.insert(
        2,
        WalkItem::Error("top/locked: permission denied".to_string()),
    );
    let out = search_root(&c, &with_error);
    assert_eq!(out.matches, strings(&["top/foo.txt", "top/bar/baz.txt"]));
    assert_eq!(out.errors, strings(&["top/locked: permission denied"]));
}

#[test]
fn error_for_one_root_leaves_other_roots_alone() {
    let c = build(&["missing", "top"], &[], &[]);
    let bad_root = vec![WalkItem::Error("missing: no such path".to_string())];
    let first = search_root(&c, &bad_root);
    assert_eq!(first.matches, strings(&[]));
    assert_eq!(first.errors, strings(&["missing: no such path"]));
    let second = search_root(&c, &scenario_items());
    assert_eq!(
        second.matches,
        strings(&["top", "top/foo.txt", "top/bar", "top/bar/baz.txt", "top/link"])
    );
}

#[test]
fn join_lines_renders_one_block() {
    assert_eq!(join_lines(&strings(&[])), "");
    assert_eq!(join_lines(&strings(&["top"])), "top");
    assert_eq!(join_lines(&strings(&["a", "b", "c"])), "a\nb\nc");
}
