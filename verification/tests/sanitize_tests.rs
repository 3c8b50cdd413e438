use code_lens::errors::RepositoryError;
use code_lens::ignore::{compile_patterns, pattern_candidates, should_ignore_path, trim_line};
use code_lens::sanitize::{check_file_sizes, plan_removals, validate_path_exists, FsEntry};

fn file(path: &str, size: u64) -> FsEntry {
    FsEntry { path: path.to_string(), is_dir: false, size }
}

fn dir(path: &str) -> FsEntry {
    FsEntry { path: path.to_string(), is_dir: true, size: 0 }
}

const MB: u64 = 1024 * 1024;

#[test]
fn log_pattern_removes_only_the_log_file() {
    let set = compile_patterns(Some("*.log"), None).unwrap();
    let entries = vec![dir("a"), file("a/b.txt", 10), file("a/ignored.log", 10)];
    let plan = plan_removals(&entries, &set);
    assert_eq!(plan, vec!["a/ignored.log".to_string()]);
}

#[test]
fn removal_plan_reverses_walk_order() {
    let set = compile_patterns(Some("logs\n*.log"), None).unwrap();
    let entries = vec![dir("logs"), file("logs/a.log", 1), file("logs/b.log", 1)];
    let plan = plan_removals(&entries, &set);
    assert_eq!(
        plan,
        vec![
            "logs/b.log".to_string(),
            "logs/a.log".to_string(),
            "logs".to_string()
        ]
    );
}

#[test]
fn directory_pattern_with_trailing_separator_matches_directory() {
    let set = compile_patterns(Some("target/"), None).unwrap();
    assert!(should_ignore_path(&set, "target"));
    assert!(!should_ignore_path(&set, "src"));
    let entries = vec![dir("target"), dir("src")];
    assert_eq!(plan_removals(&entries, &set), vec!["target".to_string()]);
}

#[test]
fn walk_root_is_never_planned_for_removal() {
    let set = compile_patterns(Some("*"), None).unwrap();
    let entries = vec![FsEntry { path: String::new(), is_dir: true, size: 0 }];
    assert!(plan_removals(&entries, &set).is_empty());
}

#[test]
fn unmatched_entries_are_kept() {
    let set = compile_patterns(Some("*.log"), None).unwrap();
    let entries = vec![file("keep.txt", 1), file("also/keep.rs", 1)];
    assert!(plan_removals(&entries, &set).is_empty());
}

#[test]
fn comments_blanks_and_invalid_globs_are_skipped() {
    let candidates = pattern_candidates("# comment\n\n  *.log  \nbuild\n");
    assert_eq!(candidates, vec!["*.log".to_string(), "build".to_string()]);
    let set = compile_patterns(Some("# only logs\n\n  *.log  \n[invalid\n"), None).unwrap();
    assert!(should_ignore_path(&set, "x.log"));
    assert!(!should_ignore_path(&set, "x.txt"));
}

#[test]
fn local_override_patterns_apply_too() {
    let set = compile_patterns(Some("*.log"), Some("*.tmp")).unwrap();
    assert!(should_ignore_path(&set, "a.log"));
    assert!(should_ignore_path(&set, "b.tmp"));
    assert!(!should_ignore_path(&set, "c.txt"));
}

#[test]
fn missing_global_source_is_a_configuration_error() {
    let err = compile_patterns(None, None).unwrap_err();
    match &err {
        RepositoryError::Configuration(m) => {
            assert_eq!(m, "Required global ignore file is missing or unreadable");
        }
        other => panic!("unexpected error: {:?}", other),
    }
}

#[test]
fn trim_line_strips_spaces_tabs_and_carriage_returns() {
    assert_eq!(trim_line("  a b \t\r"), "a b");
    assert_eq!(trim_line(""), "");
    assert_eq!(trim_line(" \t\r"), "");
    assert_eq!(trim_line("x"), "x");
}

#[test]
fn trim_line_strips_the_other_unicode_whitespace_too() {
    assert_eq!(trim_line("\u{a0}*.log\u{a0}"), "*.log");
    assert_eq!(trim_line("\u{0c}x\u{2003}"), "x");
    assert_eq!(trim_line("\u{3000}\u{2028}"), "");
    let candidates = pattern_candidates("\u{a0}*.log\u{a0}\n\u{2003}\n");
    assert_eq!(candidates, vec!["*.log".to_string()]);
}

#[test]
fn oversized_file_fails_sanitization_with_path_and_limit() {
    let entries = vec![file("small.txt", 10 * MB), file("big.bin", 60 * MB)];
    let err = check_file_sizes(&entries, 50).unwrap_err();
    match &err {
        RepositoryError::Sanitization(m) => {
            assert_eq!(m, "File 'big.bin' exceeds maximum size: 60 MB > 50 MB");
        }
        other => panic!("unexpected error: {:?}", other),
    }
}

#[test]
fn first_oversized_file_in_walk_order_is_reported() {
    let entries = vec![file("first.bin", 70 * MB), file("second.bin", 90 * MB)];
    let err = check_file_sizes(&entries, 50).unwrap_err();
    assert!(err.message().contains("first.bin"));
}

#[test]
fn files_at_or_under_the_limit_pass() {
    let entries = vec![
        file("exactly.bin", 50 * MB),
        file("well_under.bin", 49 * MB + 123),
        dir("any_dir"),
    ];
    assert!(check_file_sizes(&entries, 50).is_ok());
}

#[test]
fn one_byte_over_the_limit_fails() {
    let entries = vec![file("barely.bin", 50 * MB + 1)];
    let err = check_file_sizes(&entries, 50).unwrap_err();
    match &err {
        RepositoryError::Sanitization(m) => {
            assert_eq!(m, "File 'barely.bin' exceeds maximum size: 51 MB > 50 MB");
        }
        other => panic!("unexpected error: {:?}", other),
    }
}

#[test]
fn directories_are_not_size_checked() {
    let entries = vec![FsEntry { path: "huge_dir".to_string(), is_dir: true, size: 500 * MB }];
    assert!(check_file_sizes(&entries, 1).is_ok());
}

#[test]
fn error_message_accessor_returns_the_text() {
    let e = RepositoryError::Rendering("boom".to_string());
    assert_eq!(e.message(), "boom");
}

#[test]
fn missing_clone_path_fails_sanitization() {
    assert!(validate_path_exists(true, "/clones/x").is_ok());
    let err = validate_path_exists(false, "/clones/x").unwrap_err();
    assert_eq!(err.message(), "Repository path does not exist: /clones/x");
}

