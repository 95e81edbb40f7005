use ai_scribe::chunks::{split_text, MAX_CHARACTERS, MIN_CHARACTERS};
use ai_scribe::config::{check_bundle, load, validate, BundleSpec, Config};
use ai_scribe::error::{ConfigFault, Error};
use ai_scribe::event::{Event, FailureKind};
use ai_scribe::model::{chat_prompt, CreateConfig, ParsingError, PdfUtils, Todo, TodoNew};
use ai_scribe::paths::{
    inside_start, path_is_valid, path_stays_inside, single_name, PathPart,
};

fn bundle(name: &str, dir: &str, globs: &[&str]) -> BundleSpec {
    BundleSpec {
        bundle_name: name.to_string(),
        src_dir: dir.to_string(),
        src_globs: globs.iter().map(|g| g.to_string()).collect(),
        dst_ext: "md".to_string(),
    }
}

fn config(bundles: Vec<BundleSpec>) -> Config {
    Config {
        name: "notes".to_string(),
        instructions_file: "instructions.md".to_string(),
        embeddings_file: "embeddings.md".to_string(),
        file_bundles: bundles,
    }
}

#[test]
fn single_names_are_valid_paths() {
    assert!(path_is_valid("foo.txt"));
    assert!(path_is_valid("foo"));
    assert!(path_is_valid("foo/"));
    assert!(path_is_valid(".hidden"));
}

#[test]
fn traversals_are_not_valid_paths() {
    assert!(!path_is_valid(""));
    assert!(!path_is_valid(".."));
    assert!(!path_is_valid("."));
    assert!(!path_is_valid("/"));
    assert!(!path_is_valid("/etc"));
    assert!(!path_is_valid("../foo"));
    assert!(!path_is_valid("foo/bar"));
    assert!(!path_is_valid("foo/.."));
    assert!(!path_is_valid("./foo"));
}

#[test]
fn single_name_looks_at_the_parts() {
    assert!(single_name(&vec![PathPart::Normal]));
    assert!(!single_name(&vec![]));
    assert!(!single_name(&vec![PathPart::ParentDir]));
    assert!(!single_name(&vec![PathPart::RootDir]));
    assert!(!single_name(&vec![PathPart::Normal, PathPart::Normal]));
}

#[test]
fn inside_start_follows_the_walk() {
    assert!(inside_start(&vec![]));
    assert!(inside_start(&vec![PathPart::CurDir, PathPart::Normal]));
    assert!(inside_start(&vec![PathPart::Normal, PathPart::ParentDir]));
    assert!(inside_start(&vec![PathPart::Normal, PathPart::ParentDir, PathPart::Normal]));
    assert!(!inside_start(&vec![PathPart::ParentDir]));
    assert!(!inside_start(&vec![PathPart::Normal, PathPart::ParentDir, PathPart::ParentDir]));
    assert!(!inside_start(&vec![
        PathPart::Normal,
        PathPart::ParentDir,
        PathPart::ParentDir,
        PathPart::Normal,
        PathPart::Normal
    ]));
    assert!(!inside_start(&vec![PathPart::RootDir, PathPart::Normal]));
    assert!(!inside_start(&vec![PathPart::Prefix]));
}

#[test]
fn relative_paths_under_the_start_stay_inside() {
    assert!(path_stays_inside("src"));
    assert!(path_stays_inside("src/docs"));
    assert!(path_stays_inside("./src"));
    assert!(path_stays_inside("src/../docs"));
    assert!(path_stays_inside(""));
}

#[test]
fn escaping_paths_do_not_stay_inside() {
    assert!(!path_stays_inside(".."));
    assert!(!path_stays_inside("../src"));
    assert!(!path_stays_inside("src/../../etc"));
    assert!(!path_stays_inside("/etc"));
    assert!(!path_stays_inside("/"));
}

#[test]
fn sound_descriptor_is_accepted() {
    let c = config(vec![bundle("docs", "docs", &["*.md"]), bundle("code", "./src", &["*.rs", "*.toml"])]);
    assert_eq!(validate(&c), Ok(()));
    assert_eq!(validate(&config(Vec::new())), Ok(()));
}

#[test]
fn bundle_without_globs_is_refused() {
    let c = config(vec![bundle("docs", "docs", &["*.md"]), bundle("code", "src", &[])]);
    assert_eq!(validate(&c), Err(Error::Config(ConfigFault::NoGlobs(1))));
}

#[test]
fn bundle_with_escaping_source_dir_is_refused() {
    let c = config(vec![bundle("docs", "../docs", &["*.md"]), bundle("code", "src", &[])]);
    assert_eq!(validate(&c), Err(Error::Config(ConfigFault::SourceDirEscapes(0))));
    let c = config(vec![bundle("docs", "/var/docs", &["*.md"])]);
    assert_eq!(validate(&c), Err(Error::Config(ConfigFault::SourceDirEscapes(0))));
}

#[test]
fn missing_globs_are_reported_before_the_source_dir() {
    let c = config(vec![bundle("docs", "../docs", &[])]);
    assert_eq!(validate(&c), Err(Error::Config(ConfigFault::NoGlobs(0))));
}

#[test]
fn unreadable_descriptor_is_refused_with_the_reason() {
    assert_eq!(
        load(Err("no such file".to_string())),
        Err(Error::Config(ConfigFault::Unreadable("no such file".to_string())))
    );
}

#[test]
fn loaded_descriptor_is_checked_and_handed_on() {
    let good = config(vec![bundle("docs", "docs", &["*.md"])]);
    assert_eq!(load(Ok(good.clone())), Ok(good));
    let bad = config(vec![bundle("docs", "docs/../..", &["*.md"])]);
    assert_eq!(load(Ok(bad)), Err(Error::Config(ConfigFault::SourceDirEscapes(0))));
}

#[test]
fn check_bundle_agrees_with_validate() {
    assert!(check_bundle(&bundle("a", "src", &["*"])));
    assert!(!check_bundle(&bundle("a", "src", &[])));
    assert!(!check_bundle(&bundle("a", "..", &["*"])));
}

#[test]
fn error_kinds() {
    assert_eq!(Error::Config(ConfigFault::TooManyBundles).kind(), FailureKind::Config);
    assert_eq!(Error::Config(ConfigFault::Unreadable("x".to_string())).kind(), FailureKind::Config);
    assert_eq!(Error::Setup.kind(), FailureKind::Setup);
    assert_eq!(Error::BroadcastSend(Event::ConversationLoaded).kind(), FailureKind::Bus);
    assert_eq!(Error::ConversationInvalid("t".to_string()).kind(), FailureKind::ConversationInvalid);
    assert_eq!(Error::UnsafeDeleteAttempted("p".to_string()).kind(), FailureKind::UnsafeDelete);
    assert_eq!(Error::Io("e".to_string()).kind(), FailureKind::Io);
    assert_eq!(Error::Remote("e".to_string()).kind(), FailureKind::Remote);
}

#[test]
fn only_unsafe_delete_is_fatal() {
    assert!(Error::UnsafeDeleteAttempted("p".to_string()).is_fatal());
    assert!(!Error::Setup.is_fatal());
    assert!(!Error::Io("e".to_string()).is_fatal());
    assert!(!Error::ConversationInvalid("t".to_string()).is_fatal());
}

#[test]
fn parsing_error_keeps_its_message() {
    let e = ParsingError::new("bad header");
    assert_eq!(e.message(), "bad header");
    assert_eq!(ParsingError::new("").message(), "");
}

#[test]
fn plain_records() {
    let new = TodoNew { note: "buy milk".to_string() };
    let todo = Todo { id: 7, note: new.note.clone() };
    assert_eq!(todo.id, 7);
    assert_eq!(todo.note, "buy milk");
    let c = CreateConfig { name: "n".to_string(), model: "m".to_string() };
    assert_eq!(c.model, "m");
    assert_eq!(PdfUtils, PdfUtils);
}

#[test]
fn chat_prompt_has_context_and_ending() {
    assert_eq!(chat_prompt("Why?", "Because."), "Why?\n Context: Because.\n Be concise");
    assert_eq!(chat_prompt("", ""), "\n Context: \n Be concise");
}

#[test]
fn short_text_is_one_chunk() {
    let text = "One short sentence.".to_string();
    assert_eq!(split_text(&text), vec!["One short sentence.".to_string()]);
}

#[test]
fn long_text_is_split_below_the_limit() {
    assert_eq!(MIN_CHARACTERS, 500);
    assert_eq!(MAX_CHARACTERS, 2048);
    let mut text = String::new();
    for i in 0..400 {
        text.push_str(&format!("Sentence number {} is here. ", i));
    }
    let parts = split_text(&text);
    assert!(parts.len() > 1);
    for part in parts.iter() {
        assert!(part.chars().count() < 2048);
        assert!(text.contains(part.as_str()));
    }
    assert_ne!(parts[0], text);
}

#[test]
fn empty_text_has_no_chunks() {
    assert_eq!(split_text(&String::new()), Vec::<String>::new());
}
