use pathignore::project::{
    append_gitignore, empty_ruleset, guess_is_dir, join_with_blank_lines, rules_for_gitignore,
    IsIgnored, ProjectError,
};

#[test]
fn not_found_error_message() {
    let err = ProjectError::NotFound("/imagigary/dir".to_string());
    assert_eq!(err.message(), "Directory /imagigary/dir Cannot be found!");
}

#[test]
fn guess_is_dir_by_trailing_extension() {
    assert!(guess_is_dir("src"));
    assert!(guess_is_dir("node_modules"));
    assert!(!guess_is_dir("main.rs"));
    assert!(!guess_is_dir("archive.gz"));
    assert!(guess_is_dir("file.toml"));
    assert!(guess_is_dir(".gitignore"));
    assert!(guess_is_dir("x.y"));
}

#[test]
fn append_gitignore_keeps_or_discards_existing() {
    let existing = Some(vec!["old".to_string()]);
    assert_eq!(
        append_gitignore(&existing, "extra", true),
        vec!["old".to_string(), "\n extra".to_string()]
    );
    assert_eq!(
        append_gitignore(&existing, "extra", false),
        vec!["\n extra".to_string()]
    );
    assert_eq!(append_gitignore(&None, "extra", true), vec!["\n extra".to_string()]);
}

#[test]
fn join_blocks_with_blank_lines() {
    assert_eq!(join_with_blank_lines(&Vec::new()), "");
    assert_eq!(join_with_blank_lines(&vec!["a".to_string()]), "a");
    assert_eq!(
        join_with_blank_lines(&vec!["a".to_string(), "b".to_string(), "c".to_string()]),
        "a\n\nb\n\nc"
    );
}

#[test]
fn empty_ruleset_is_permissive() {
    let rs = empty_ruleset("/repo");
    assert!(!rs.is_ignored("anything", false));
    assert!(!rs.is_ignored("dir", true));
}

#[test]
fn rules_from_stored_gitignore_blocks() {
    let blocks = Some(vec!["target/".to_string(), "*.log".to_string()]);
    let rs = rules_for_gitignore("/repo", &blocks);
    assert!(rs.is_ignored("target", true));
    assert!(rs.is_ignored("x.log", false));
    assert!(!rs.is_ignored("src", true));
}

#[test]
fn rules_fall_back_to_permissive_on_bad_text() {
    let blocks = Some(vec!["[".to_string()]);
    let rs = rules_for_gitignore("/repo", &blocks);
    assert!(!rs.is_ignored("anything", false));
    let rs = rules_for_gitignore("/repo", &None);
    assert!(!rs.is_ignored("x.log", false));
}

#[test]
fn is_ignored_answer_carries_three_flags() {
    let a = IsIgnored { exists: false, is_dir: true, is_ignored: false };
    let b = a;
    assert_eq!(a, b);
    assert!(!a.exists);
    assert!(a.is_dir);
    assert!(!a.is_ignored);
}
