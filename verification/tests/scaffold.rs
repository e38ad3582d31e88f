use dora_cli::fs_model::FsModel;
use dora_cli::scaffold::{
    confirmation_message, create, name_is_valid, IoOp, ProjectKind, ScaffoldError,
    ScaffoldRequest, NODE_SOURCE_TEMPLATE, OPERATOR_MANIFEST_TEMPLATE, OPERATOR_SOURCE_TEMPLATE,
    PLACEHOLDER,
};

fn request(kind: ProjectKind, name: &str, destination: Option<&str>) -> ScaffoldRequest {
    ScaffoldRequest {
        kind,
        name: name.to_string(),
        destination: destination.map(|d| d.to_string()),
    }
}

#[test]
fn name_with_separator_is_invalid() {
    assert!(!name_is_valid("foo/bar"));
    assert!(!name_is_valid("/"));
    assert!(name_is_valid("foo"));
    assert!(name_is_valid("foo-bar_2"));
}

#[test]
fn empty_name_is_invalid() {
    assert!(!name_is_valid(""));
}

#[test]
fn empty_name_rejected_without_mutation() {
    let mut fs = FsModel::new();
    let r = create(request(ProjectKind::Operator, "", None), &mut fs);
    assert_eq!(r, Err(ScaffoldError::InvalidName));
    assert!(fs.dirs.is_empty());
    assert!(fs.files.is_empty());
}

#[test]
fn non_ascii_name_is_invalid() {
    assert!(!name_is_valid("caf\u{e9}"));
    assert!(!name_is_valid("\u{65e5}\u{672c}"));
}

#[test]
fn separator_name_rejected_without_mutation() {
    let mut fs = FsModel::new();
    let r = create(request(ProjectKind::Operator, "foo/bar", None), &mut fs);
    assert_eq!(r, Err(ScaffoldError::InvalidName));
    assert!(fs.dirs.is_empty());
    assert!(fs.files.is_empty());
}

#[test]
fn non_ascii_name_rejected_without_mutation() {
    let mut fs = FsModel::new();
    let r = create(request(ProjectKind::CustomNode, "caf\u{e9}", None), &mut fs);
    assert_eq!(r, Err(ScaffoldError::InvalidName));
    assert!(fs.dirs.is_empty());
    assert!(fs.files.is_empty());
}

#[test]
fn valid_name_scaffolds_full_layout() {
    let mut fs = FsModel::new();
    let r = create(request(ProjectKind::Operator, "foo", None), &mut fs);
    assert_eq!(r, Ok(()));
    assert_eq!(fs.dirs, vec!["foo".to_string(), "foo/src".to_string()]);
    assert_eq!(fs.files.len(), 2);

    let (manifest_path, manifest) = &fs.files[0];
    assert_eq!(manifest_path, "foo/Cargo.toml");
    let expected = OPERATOR_MANIFEST_TEMPLATE.replace(PLACEHOLDER, "foo");
    assert_eq!(manifest, &expected);
    assert!(manifest.contains("name = \"foo\""));
    assert!(!manifest.contains(PLACEHOLDER));

    let (source_path, source) = &fs.files[1];
    assert_eq!(source_path, "foo/src/lib.rs");
    assert_eq!(source, OPERATOR_SOURCE_TEMPLATE);
}

#[test]
fn create_twice_fails_and_keeps_first_output() {
    let mut fs = FsModel::new();
    assert_eq!(create(request(ProjectKind::Operator, "foo", None), &mut fs), Ok(()));
    let dirs_after_first = fs.dirs.clone();
    let files_after_first = fs.files.clone();

    let r = create(request(ProjectKind::Operator, "foo", None), &mut fs);
    assert_eq!(
        r,
        Err(ScaffoldError::IoError(IoOp::CreateDirectory, "foo".to_string()))
    );
    assert_eq!(fs.dirs, dirs_after_first);
    assert_eq!(fs.files, files_after_first);
}

#[test]
fn destination_overrides_name() {
    let mut fs = FsModel::new();
    let r = create(
        request(ProjectKind::CustomNode, "foo", Some("elsewhere")),
        &mut fs,
    );
    assert_eq!(r, Ok(()));
    assert_eq!(fs.dirs, vec!["elsewhere".to_string(), "elsewhere/src".to_string()]);
    assert_eq!(fs.files[0].0, "elsewhere/Cargo.toml");
    assert_eq!(fs.files[1].0, "elsewhere/src/main.rs");
    assert_eq!(fs.files[1].1, NODE_SOURCE_TEMPLATE);
}

#[test]
fn failure_after_root_creation_keeps_root() {
    // The src subdirectory already exists; the root does not.
    let mut fs = FsModel::new();
    assert!(fs.mkdir(&"foo/src".to_string()));

    let r = create(request(ProjectKind::Operator, "foo", None), &mut fs);
    assert_eq!(
        r,
        Err(ScaffoldError::IoError(IoOp::CreateDirectory, "foo/src".to_string()))
    );
    // No rollback: the root directory created before the failure is kept.
    assert_eq!(fs.dirs, vec!["foo/src".to_string(), "foo".to_string()]);
    assert!(fs.files.is_empty());
}

#[test]
fn confirmation_names_kind_name_and_path() {
    assert_eq!(
        confirmation_message(ProjectKind::Operator, "foo", "foo"),
        "Created new Rust operator `foo` at ./foo"
    );
    assert_eq!(
        confirmation_message(ProjectKind::CustomNode, "foo", "/tmp/elsewhere"),
        "Created new Rust custom node `foo` at /tmp/elsewhere"
    );
}

#[test]
fn node_manifest_substitutes_every_occurrence() {
    let mut fs = FsModel::new();
    let r = create(request(ProjectKind::CustomNode, "my-node", None), &mut fs);
    assert_eq!(r, Ok(()));
    let manifest = &fs.files[0].1;
    assert!(manifest.contains("name = \"my-node\""));
    assert!(!manifest.contains(PLACEHOLDER));
}
