use advrunner::workspace::manifest_parent_dir;

#[test]
fn strips_the_manifest_file_name() {
    assert_eq!(
        manifest_parent_dir("/home/user/project/Cargo.toml").as_deref(),
        Some("/home/user/project")
    );
}

#[test]
fn a_manifest_at_the_root_yields_the_root() {
    assert_eq!(manifest_parent_dir("/Cargo.toml").as_deref(), Some("/"));
}

#[test]
fn a_bare_file_name_has_no_directory() {
    assert_eq!(manifest_parent_dir("Cargo.toml"), None);
    assert_eq!(manifest_parent_dir(""), None);
}

#[test]
fn only_the_last_separator_counts() {
    assert_eq!(manifest_parent_dir("a/b/c").as_deref(), Some("a/b"));
}

#[test]
fn a_bare_root_is_not_a_manifest_path() {
    assert_eq!(manifest_parent_dir("/"), None);
}

#[test]
fn a_trailing_separator_leaves_no_file_name() {
    assert_eq!(manifest_parent_dir("a/b/"), None);
    assert_eq!(manifest_parent_dir("/a/"), None);
}
