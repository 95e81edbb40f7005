use ai_scribe::bundle::{append_section, bundle_to_file, SourceFile};
use ai_scribe::error::Error;
use ai_scribe::gate::{
    bundle_file_name, bundle_file_path, cleanup_stale, should_reupload, CONFIG_FILE, CONV_FILE,
    DATA_DIR, FILES_DIR,
};
use ai_scribe::text::contains;

fn file(path: &str, lines: &[&str]) -> SourceFile {
    SourceFile { path: path.to_string(), lines: lines.iter().map(|l| l.to_string()).collect() }
}

#[test]
fn bundle_of_no_files_is_empty() {
    assert_eq!(bundle_to_file(&Vec::new()), "");
}

#[test]
fn bundle_of_one_file_has_delimiter_and_lines() {
    let files = vec![file("src/a.rs", &["fn a() {}", "// end"])];
    assert_eq!(
        bundle_to_file(&files),
        "\n// ==== file path: src/a.rs\n\nfn a() {}\n// end\n\n\n\n"
    );
}

#[test]
fn bundle_of_two_files_keeps_input_order() {
    let files = vec![file("b.md", &["second name, first place"]), file("a.md", &["x", "y"])];
    let text = bundle_to_file(&files);
    assert_eq!(
        text,
        "\n// ==== file path: b.md\n\nsecond name, first place\n\n\n\n\n// ==== file path: a.md\n\nx\ny\n\n\n\n"
    );
    let first = text.find("// ==== file path: b.md").unwrap();
    let second = text.find("// ==== file path: a.md").unwrap();
    assert!(first < second);
}

#[test]
fn bundle_of_file_without_lines_has_only_delimiter() {
    let files = vec![file("empty.txt", &[])];
    assert_eq!(bundle_to_file(&files), "\n// ==== file path: empty.txt\n\n\n\n\n");
}

#[test]
fn section_is_appended_to_what_is_there() {
    let mut out = String::from("head");
    append_section(&mut out, &file("p", &["l"]));
    assert_eq!(out, "head\n// ==== file path: p\n\nl\n\n\n\n");
}

#[test]
fn bundle_is_the_same_for_the_same_files() {
    let files = vec![file("a", &["1"]), file("b", &["2"])];
    assert_eq!(bundle_to_file(&files), bundle_to_file(&files));
}

#[test]
fn contains_finds_substrings() {
    assert!(contains("dir/.scribe/files/a.md", ".scribe"));
    assert!(contains(".scribe", ".scribe"));
    assert!(contains("abc", ""));
    assert!(contains("", ""));
    assert!(contains("xxabc", "abc"));
    assert!(contains("abcxx", "abc"));
}

#[test]
fn contains_rejects_what_is_not_there() {
    assert!(!contains("dir/scribe/files/a.md", ".scribe"));
    assert!(!contains("", "a"));
    assert!(!contains("ab", "abc"));
    assert!(!contains(".scrib", ".scribe"));
    assert!(!contains("a.b.c", "ac"));
}

#[test]
fn contains_counts_characters_not_bytes() {
    assert!(contains("h\u{e9}llo w\u{f6}rld", "w\u{f6}r"));
    assert!(!contains("h\u{e9}llo", "hl"));
    assert!(contains("\u{65e5}\u{672c}\u{8a9e}", "\u{8a9e}"));
}

#[test]
fn should_reupload_is_recreate_or_missing() {
    assert!(should_reupload(false, false));
    assert!(should_reupload(false, true));
    assert!(should_reupload(true, true));
    assert!(!should_reupload(true, false));
}

#[test]
fn artifact_name_follows_the_scheme() {
    assert_eq!(bundle_file_name("notes", "docs", "asst_123", "md"), "notes-docs-bundle-asst_123.md");
    assert_eq!(bundle_file_name("", "", "", ""), "--bundle-.");
}

#[test]
fn artifact_path_lies_in_the_private_directory() {
    let path = bundle_file_path("notes", "code", "asst_9", "rs");
    assert_eq!(path, ".scribe/files/notes-code-bundle-asst_9.rs");
    assert!(contains(&path, DATA_DIR));
    assert!(path.starts_with(FILES_DIR));
}

#[test]
fn layout_constants() {
    assert_eq!(CONFIG_FILE, "scribe.toml");
    assert_eq!(DATA_DIR, ".scribe");
    assert_eq!(CONV_FILE, ".scribe/conv.json");
    assert_eq!(FILES_DIR, ".scribe/files");
}

#[test]
fn cleanup_picks_stale_private_files() {
    let candidates = vec![
        "s/.scribe/files/n-a-bundle-asst_old.md".to_string(),
        "s/.scribe/files/n-a-bundle-asst_new.md".to_string(),
        "s/.scribe/files/n-b-bundle-asst_older.rs".to_string(),
    ];
    let doomed = cleanup_stale(&candidates, "asst_new").unwrap();
    assert_eq!(
        doomed,
        vec![
            "s/.scribe/files/n-a-bundle-asst_old.md".to_string(),
            "s/.scribe/files/n-b-bundle-asst_older.rs".to_string(),
        ]
    );
}

#[test]
fn cleanup_of_nothing_deletes_nothing() {
    assert_eq!(cleanup_stale(&Vec::new(), "asst_1"), Ok(Vec::new()));
}

#[test]
fn cleanup_keeps_current_artifacts() {
    let candidates = vec![".scribe/files/n-a-bundle-asst_1.md".to_string()];
    assert_eq!(cleanup_stale(&candidates, "asst_1"), Ok(Vec::new()));
}

#[test]
fn cleanup_refuses_path_without_marker() {
    let candidates = vec![
        "s/.scribe/files/old-asst_0.md".to_string(),
        "home/user/thesis.md".to_string(),
        "home/user/other.md".to_string(),
    ];
    assert_eq!(
        cleanup_stale(&candidates, "asst_1"),
        Err(Error::UnsafeDeleteAttempted("home/user/thesis.md".to_string()))
    );
}

#[test]
fn cleanup_ignores_unmarked_path_that_is_kept() {
    let candidates = vec!["elsewhere/n-a-bundle-asst_1.md".to_string()];
    assert_eq!(cleanup_stale(&candidates, "asst_1"), Ok(Vec::new()));
}
