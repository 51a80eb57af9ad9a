use pathignore::ruleset::{load_str, parse_line, CompileError, ParsedLine, RuleSet};

fn chars(s: &str) -> Vec<char> {
    s.chars().collect()
}

#[test]
fn empty_pattern_list_ignores_nothing() {
    let rs = RuleSet::new("/repo", Vec::new()).unwrap();
    assert!(!rs.is_ignored("a.log", false));
    assert!(!rs.is_ignored("src/main.rs", false));
    assert!(!rs.is_ignored("build", true));
    assert!(!rs.is_ignored("", false));
}

#[test]
fn negation_overrides_prior_match() {
    let rs = RuleSet::new("/repo", vec!["*.log", "!important.log"]).unwrap();
    assert!(rs.is_ignored("a.log", false));
    assert!(!rs.is_ignored("important.log", false));
}

#[test]
fn directory_only_rule_spares_files() {
    let rs = RuleSet::new("/repo", vec!["build/"]).unwrap();
    assert!(rs.is_ignored("build", true));
    assert!(!rs.is_ignored("build", false));
}

#[test]
fn anchored_rule_matches_only_at_root() {
    let rs = RuleSet::new("/repo", vec!["/config.yml"]).unwrap();
    assert!(rs.is_ignored("config.yml", false));
    assert!(!rs.is_ignored("sub/config.yml", false));
}

#[test]
fn recursive_suffix_matches_contents_not_directory() {
    let rs = RuleSet::new("/repo", vec!["docs/**"]).unwrap();
    assert!(rs.is_ignored("docs/a.txt", false));
    assert!(!rs.is_ignored("docs", true));
}

#[test]
fn later_rule_wins_over_earlier_negation() {
    let rs = RuleSet::new("/repo", vec!["*.txt", "!keep.txt", "*.txt"]).unwrap();
    assert!(rs.is_ignored("keep.txt", false));
}

#[test]
fn identical_builds_answer_identically() {
    let text = "target/\n*.tmp\n!keep.tmp\n/anchored.md\ndocs/**";
    let a = load_str("/repo", text).unwrap();
    let b = load_str("/repo", text).unwrap();
    let probes = [
        ("target", true),
        ("target", false),
        ("x.tmp", false),
        ("keep.tmp", false),
        ("anchored.md", false),
        ("sub/anchored.md", false),
        ("docs/guide.md", false),
        ("docs", true),
        ("unrelated.rs", false),
    ];
    for (path, is_dir) in probes {
        assert_eq!(a.is_ignored(path, is_dir), b.is_ignored(path, is_dir));
    }
}

#[test]
fn scenario_rules_under_project_root() {
    let rs = load_str("/proj", "node_modules/\n*.log\n!keep.log").unwrap();
    assert!(rs.is_ignored("/proj/node_modules", true));
    assert!(rs.is_ignored("/proj/app.log", false));
    assert!(!rs.is_ignored("/proj/keep.log", false));
}

#[test]
fn invalid_glob_reports_first_bad_rule() {
    let err = RuleSet::new("/repo", vec!["[", "*.log"]).unwrap_err();
    assert_eq!(err, CompileError::InvalidGlob(0));
    let err = RuleSet::new("/repo", vec!["*.ok", "# comment", "["]).unwrap_err();
    // The comment contributes no rule, so the bad glob is rule 1.
    assert_eq!(err, CompileError::InvalidGlob(1));
}

#[test]
fn comments_and_blank_lines_contribute_nothing() {
    let rs = load_str("/repo", "# comment\n\n*.tmp\n   \n").unwrap();
    assert!(rs.is_ignored("junk.tmp", false));
    assert!(!rs.is_ignored("comment", false));
}

#[test]
fn leading_dot_slash_is_stripped_from_root_and_path() {
    let rs = RuleSet::new("./proj", vec!["*.log"]).unwrap();
    assert!(rs.is_ignored("./proj/a.log", false));
    assert!(rs.is_ignored("proj/a.log", false));
    assert!(rs.is_ignored("a.log", false));
}

#[test]
fn unanchored_rule_matches_at_any_depth() {
    let rs = RuleSet::new("/repo", vec!["*.log"]).unwrap();
    assert!(rs.is_ignored("deep/nested/dir/x.log", false));
    let anchored = RuleSet::new("/repo", vec!["sub/*.log"]).unwrap();
    assert!(anchored.is_ignored("sub/x.log", false));
    assert!(!anchored.is_ignored("sub/deeper/x.log", false));
}

#[test]
fn parse_line_classifies_lines() {
    assert!(matches!(parse_line("   "), ParsedLine::Empty));
    assert!(matches!(parse_line("# note"), ParsedLine::Comment));
    match parse_line("!build/") {
        ParsedLine::WithRule(rule) => {
            assert!(rule.negation);
            assert!(rule.dir_only);
            assert!(!rule.anchored);
            assert_eq!(rule.pattern, chars("**/build"));
        }
        _ => panic!("expected a rule"),
    }
}

#[test]
fn parse_line_rewrites_patterns() {
    match parse_line("docs/**") {
        ParsedLine::WithRule(rule) => {
            assert!(rule.anchored);
            assert_eq!(rule.pattern, chars("**/docs/**/*"));
        }
        _ => panic!("expected a rule"),
    }
    match parse_line("/top.txt") {
        ParsedLine::WithRule(rule) => {
            assert!(rule.anchored);
            assert!(!rule.negation);
            assert_eq!(rule.pattern, chars("top.txt"));
        }
        _ => panic!("expected a rule"),
    }
    match parse_line("a\\ b") {
        ParsedLine::WithRule(rule) => {
            assert_eq!(rule.pattern, chars("**/a b"));
        }
        _ => panic!("expected a rule"),
    }
}

#[test]
fn trailing_newline_gives_no_extra_rule() {
    let rs = load_str("/repo", "*.log\n").unwrap();
    assert!(rs.is_ignored("a.log", false));
    assert!(!rs.is_ignored("a.txt", false));
}
