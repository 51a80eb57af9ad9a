use pathignore::detector::{
    default_project_file_types, detect_lang, detect_langs_from_files, get_lang_gitignore,
    name_in_list, Configs, Detectors, FakeDirEntry, Language, Matcher,
};

#[test]
fn detect_rust_from_cargo_toml() {
    assert_eq!(detect_lang("/some/project/Cargo.toml"), vec!["rust".to_string()]);
}

#[test]
fn detect_node_from_package_json() {
    assert_eq!(detect_lang("package.json"), vec!["node".to_string()]);
}

#[test]
fn detect_by_extension() {
    assert_eq!(detect_lang("src/build.zig"), vec!["zig".to_string()]);
    assert_eq!(detect_lang("mygem.gemspec"), vec!["ruby".to_string()]);
}

#[test]
fn detect_shared_marker_in_table_order() {
    assert_eq!(
        detect_lang("build.sbt"),
        vec!["java".to_string(), "scala".to_string()]
    );
}

#[test]
fn detect_dotfile_by_name() {
    assert_eq!(detect_lang("/p/.nvmrc"), vec!["node".to_string()]);
}

#[test]
fn detect_unknown_file_gives_nothing() {
    assert!(detect_lang("notes.txt").is_empty());
    assert!(detect_lang("").is_empty());
}

#[test]
fn detect_langs_across_files_concatenates() {
    let files = vec![
        "Cargo.toml".to_string(),
        "README.md".to_string(),
        "package.json".to_string(),
    ];
    assert_eq!(
        detect_langs_from_files(&files),
        vec!["rust".to_string(), "node".to_string()]
    );
}

#[test]
fn detectors_ignore_non_files() {
    let detectors = Detectors::default();
    let dir_entry = FakeDirEntry::new("Cargo.toml", None, false);
    let hits = detectors.detects(&vec![dir_entry]);
    assert!(hits.is_empty());
    let file_entry = FakeDirEntry::new("Cargo.toml", None, true);
    let hits = detectors.detects(&vec![file_entry]);
    assert_eq!(hits, vec!["rust".to_string()]);
}

#[test]
fn matcher_by_extension_needs_matching_extension() {
    let m = Matcher::by_file_extension("opam");
    let with = FakeDirEntry::new("foo.opam", Some("opam"), true);
    let without = FakeDirEntry::new("foo.opam", None, true);
    assert!(m.matches(&with));
    assert!(!m.matches(&without));
}

fn sample_configs() -> Configs {
    Configs {
        project_file_types: vec!["Cargo.toml".to_string(), "package.json".to_string()],
        git_ignores: vec![
            Language::new("node", "Node", "Node.gitignore", "node_modules/\n*.log"),
            Language::new("rust", "Rust", "Rust.gitignore", "target/"),
        ],
    }
}

#[test]
fn gitignore_lookup_finds_known_languages() {
    let configs = sample_configs();
    let langs = Some(vec!["node".to_string(), "rust".to_string()]);
    let found = get_lang_gitignore(&configs, &langs).unwrap();
    assert_eq!(
        found,
        vec!["node_modules/\n*.log".to_string(), "target/".to_string()]
    );
}

#[test]
fn gitignore_lookup_skips_unknown_languages() {
    let configs = sample_configs();
    let langs = Some(vec!["cobol".to_string(), "node".to_string()]);
    let found = get_lang_gitignore(&configs, &langs).unwrap();
    assert_eq!(found, vec!["node_modules/\n*.log".to_string()]);
}

#[test]
fn gitignore_lookup_empty_when_nothing_found() {
    let configs = sample_configs();
    assert!(get_lang_gitignore(&configs, &Some(vec!["cobol".to_string()])).is_none());
    assert!(get_lang_gitignore(&configs, &None).is_none());
}

#[test]
fn language_exposes_contents() {
    let l = Language::new("go", "Go", "Go.gitignore", "bin/");
    assert_eq!(l.contents, "bin/");
}

#[test]
fn marker_file_list_holds_known_names() {
    let types = default_project_file_types();
    assert_eq!(types.len(), 63);
    assert_eq!(types[0], "shard.yml");
    assert!(types.contains(&"Cargo.toml".to_string()));
    assert!(types.contains(&"package.json".to_string()));
    assert_eq!(types[62], "Package.swift");
}

#[test]
fn marker_name_membership() {
    let types = default_project_file_types();
    assert!(name_in_list(&types, "Cargo.toml"));
    assert!(name_in_list(&types, ".nvmrc"));
    assert!(!name_in_list(&types, "README.md"));
    assert!(!name_in_list(&Vec::new(), "Cargo.toml"));
}
