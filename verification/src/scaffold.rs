//! The scaffolder: validating a project name and laying out a new project
//! (a root directory, a `src` subdirectory, a manifest with the name
//! substituted into a template, and a verbatim source stub) over the
//! filesystem model.

use vstd::prelude::*;
use vstd::utf8::is_ascii_chars;

use crate::fs_model::{FsModel, FsState};
use crate::substitute::{contains_token, lemma_replaced_no_token, replace_all, replaced};

verus! {

/// The placeholder token that templates carry where the project name belongs.
pub const PLACEHOLDER: &'static str = "___name___";

/// Manifest template for a new operator project.
pub const OPERATOR_MANIFEST_TEMPLATE: &'static str = r#"[package]
name = "___name___"
version = "0.1.0"
edition = "2021"

[lib]
crate-type = ["cdylib"]

[dependencies]
dora-operator-api = "0.2"
"#;

/// Source stub for a new operator project, written verbatim.
pub const OPERATOR_SOURCE_TEMPLATE: &'static str = r#"use dora_operator_api::{register_operator, DoraOperator, DoraOutputSender, DoraStatus};
use std::time::{Duration, Instant};

register_operator!(ExampleOperator);

#[derive(Debug, Default)]
struct ExampleOperator {
    example_field: u32,
}

impl DoraOperator for ExampleOperator {
    fn on_input(
        &mut self,
        id: &str,
        data: &[u8],
        output_sender: &mut DoraOutputSender,
    ) -> Result<DoraStatus, String> {
        match id {
            other => eprintln!("ignoring unexpected input {other}"),
        }
        Ok(DoraStatus::Continue)
    }
}
"#;

/// Manifest template for a new custom-node project.
pub const NODE_MANIFEST_TEMPLATE: &'static str = r#"[package]
name = "___name___"
version = "0.1.0"
edition = "2021"

[dependencies]
dora-node-api = "0.2"
"#;

/// Source stub for a new custom-node project, written verbatim.
pub const NODE_SOURCE_TEMPLATE: &'static str = r#"use dora_node_api::DoraNode;

fn main() {
    let node = DoraNode::init_from_env();
    match node {
        Ok(_node) => println!("new node is running"),
        Err(err) => eprintln!("failed to initialize node: {err}"),
    }
}
"#;

/// Which template pair a new project is created from.
#[derive(Clone, Copy, PartialEq, Eq, Debug)]
pub enum ProjectKind {
    Operator,
    CustomNode,
}

/// One scaffold invocation: a kind, a project name, and an optional
/// destination path. Without a destination the project is created under a
/// path equal to the name.
pub struct ScaffoldRequest {
    pub kind: ProjectKind,
    pub name: String,
    pub destination: Option<String>,
}

/// The filesystem operation a `ScaffoldError::IoError` failed in.
#[derive(Clone, Copy, PartialEq, Eq, Debug)]
pub enum IoOp {
    CreateDirectory,
    /// Never produced by the library itself: the model's writes cannot fail.
    /// A program replaying the model onto a real filesystem reports its write
    /// failures under this operation, with the path that failed.
    WriteFile,
}

/// Why a scaffold invocation failed.
#[derive(Clone, PartialEq, Eq, Debug)]
pub enum ScaffoldError {
    /// The project name is empty, contains a `/` separator, or contains a
    /// non-ASCII character.
    InvalidName,
    /// A filesystem operation failed; carries the operation and the path.
    IoError(IoOp, String),
}

/// The mathematical content of a `ScaffoldError`.
pub enum ScaffoldErrorView {
    InvalidName,
    IoError(IoOp, Seq<char>),
}

impl View for ScaffoldError {
    type V = ScaffoldErrorView;

    open spec fn view(&self) -> ScaffoldErrorView {
        match self {
            ScaffoldError::InvalidName => ScaffoldErrorView::InvalidName,
            ScaffoldError::IoError(op, path) => ScaffoldErrorView::IoError(*op, path@),
        }
    }
}

/// The mathematical content of a scaffold result.
pub open spec fn result_view(r: Result<(), ScaffoldError>) -> Result<(), ScaffoldErrorView> {
    match r {
        Ok(()) => Ok(()),
        Err(e) => Err(e@),
    }
}

/// A valid project name: non-empty, no `/` separator, only ASCII characters.
pub open spec fn valid_name(name: Seq<char>) -> bool {
    &&& name.len() > 0
    &&& forall|i: int| 0 <= i < name.len() ==> name[i] != '/'
    &&& is_ascii_chars(name)
}

/// The root directory a request resolves to: the destination when one is
/// given, else a path equal to the name.
pub open spec fn resolved_root(name: Seq<char>, destination: Option<Seq<char>>) -> Seq<char> {
    match destination {
        Some(d) => d,
        None => name,
    }
}

/// The manifest template of a project kind.
pub open spec fn manifest_template(kind: ProjectKind) -> Seq<char> {
    match kind {
        ProjectKind::Operator => OPERATOR_MANIFEST_TEMPLATE@,
        ProjectKind::CustomNode => NODE_MANIFEST_TEMPLATE@,
    }
}

/// The source stub of a project kind.
pub open spec fn source_template(kind: ProjectKind) -> Seq<char> {
    match kind {
        ProjectKind::Operator => OPERATOR_SOURCE_TEMPLATE@,
        ProjectKind::CustomNode => NODE_SOURCE_TEMPLATE@,
    }
}

/// The source file of a project kind, relative to the project root.
pub open spec fn source_rel_path(kind: ProjectKind) -> Seq<char> {
    match kind {
        ProjectKind::Operator => "/src/lib.rs"@,
        ProjectKind::CustomNode => "/src/main.rs"@,
    }
}

/// The view of an optional destination path.
pub open spec fn destination_view(destination: Option<String>) -> Option<Seq<char>> {
    match destination {
        Some(d) => Some(d@),
        None => None,
    }
}

/// What one scaffold invocation does: the filesystem state it leaves behind
/// and the result it reports.
///
/// Validation happens before any mutation; each later step's failure aborts
/// the remainder, and directories created before the failing step are kept
/// (no rollback).
pub open spec fn scaffold_outcome(
    kind: ProjectKind,
    name: Seq<char>,
    destination: Option<Seq<char>>,
    fs: FsState,
) -> (FsState, Result<(), ScaffoldErrorView>) {
    if !valid_name(name) {
        (fs, Err(ScaffoldErrorView::InvalidName))
    } else {
        let root = resolved_root(name, destination);
        if fs.has_dir(root) {
            (fs, Err(ScaffoldErrorView::IoError(IoOp::CreateDirectory, root)))
        } else {
            let fs1 = fs.mkdir(root);
            let src_dir = root + "/src"@;
            if fs1.has_dir(src_dir) {
                (fs1, Err(ScaffoldErrorView::IoError(IoOp::CreateDirectory, src_dir)))
            } else {
                let fs2 = fs1.mkdir(src_dir);
                let fs3 = fs2.write(
                    root + "/Cargo.toml"@,
                    replaced(manifest_template(kind), PLACEHOLDER@, name),
                );
                let fs4 = fs3.write(root + source_rel_path(kind), source_template(kind));
                (fs4, Ok(()))
            }
        }
    }
}

/// True when `name` is a valid project name.
pub fn name_is_valid(name: &str) -> (b: bool)
    ensures
        b == valid_name(name@),
{
    let n: usize = name.unicode_len();
    if n == 0 {
        return false;
    }
    let mut i: usize = 0;
    while i < n
        invariant
            n == name@.len(),
            i <= n,
            forall|k: int| 0 <= k < i ==> name@[k] != '/',
        decreases n - i,
    {
        if name.get_char(i) == '/' {
            return false;
        }
        i += 1;
    }
    name.is_ascii()
}

/// Create a new project from `request`: validate the name, create the root
/// and `src` directories, write the manifest with the name substituted for
/// every placeholder occurrence, and write the source stub verbatim.
///
/// The whole effect and result are `scaffold_outcome` of the request.
pub fn create(request: ScaffoldRequest, fs: &mut FsModel) -> (r: Result<(), ScaffoldError>)
    ensures
        ({
            let (fs_post, out) = scaffold_outcome(
                request.kind,
                request.name@,
                destination_view(request.destination),
                old(fs)@,
            );
            final(fs)@ == fs_post && result_view(r) == out
        }),
{
    let ScaffoldRequest { kind, name, destination } = request;
    if !name_is_valid(name.as_str()) {
        return Err(ScaffoldError::InvalidName);
    }
    let root: String = match destination {
        Some(d) => d,
        None => name.clone(),
    };
    if !fs.mkdir(&root) {
        return Err(ScaffoldError::IoError(IoOp::CreateDirectory, root));
    }
    let mut src_dir = root.clone();
    src_dir.append("/src");
    if !fs.mkdir(&src_dir) {
        return Err(ScaffoldError::IoError(IoOp::CreateDirectory, src_dir));
    }
    let manifest_tpl: &str = match kind {
        ProjectKind::Operator => OPERATOR_MANIFEST_TEMPLATE,
        ProjectKind::CustomNode => NODE_MANIFEST_TEMPLATE,
    };
    let source_tpl: &str = match kind {
        ProjectKind::Operator => OPERATOR_SOURCE_TEMPLATE,
        ProjectKind::CustomNode => NODE_SOURCE_TEMPLATE,
    };
    let manifest = replace_all(manifest_tpl, PLACEHOLDER, name.as_str());
    let mut manifest_path = root.clone();
    manifest_path.append("/Cargo.toml");
    fs.write_file(manifest_path, manifest);
    let mut source_path = root;
    match kind {
        ProjectKind::Operator => source_path.append("/src/lib.rs"),
        ProjectKind::CustomNode => source_path.append("/src/main.rs"),
    }
    fs.write_file(source_path, source_tpl.to_owned());
    Ok(())
}

/// The human-readable label of a project kind.
pub open spec fn kind_label(kind: ProjectKind) -> Seq<char> {
    match kind {
        ProjectKind::Operator => "operator"@,
        ProjectKind::CustomNode => "custom node"@,
    }
}

/// How the resolved root is displayed: relative roots are shown from the
/// current working directory.
pub open spec fn display_path(root: Seq<char>) -> Seq<char> {
    if root.len() > 0 && root[0] == '/' {
        root
    } else {
        "./"@ + root
    }
}

/// The confirmation line a successful scaffold reports, naming the kind, the
/// project name, and the resolved path.
pub fn confirmation_message(kind: ProjectKind, name: &str, root: &str) -> (m: String)
    ensures
        m@ == "Created new Rust "@ + kind_label(kind) + " `"@ + name@ + "` at "@ + display_path(
            root@,
        ),
{
    let mut m = "Created new Rust ".to_owned();
    match kind {
        ProjectKind::Operator => m.append("operator"),
        ProjectKind::CustomNode => m.append("custom node"),
    }
    m.append(" `");
    m.append(name);
    m.append("` at ");
    let absolute: bool = if root.unicode_len() > 0 {
        root.get_char(0) == '/'
    } else {
        false
    };
    if !absolute {
        m.append("./");
    }
    m.append(root);
    proof {
        assert(m@ =~= "Created new Rust "@ + kind_label(kind) + " `"@ + name@ + "` at "@
            + display_path(root@));
    }
    m
}

/// Law: a name containing a `/` separator is rejected as invalid and the
/// filesystem is left untouched.
pub proof fn lemma_name_with_separator_rejected(
    kind: ProjectKind,
    name: Seq<char>,
    destination: Option<Seq<char>>,
    fs: FsState,
)
    requires
        exists|i: int| 0 <= i < name.len() && name[i] == '/',
    ensures
        scaffold_outcome(kind, name, destination, fs) == (
            fs,
            Err::<(), ScaffoldErrorView>(ScaffoldErrorView::InvalidName),
        ),
{
    assert(!valid_name(name));
}

/// Law: an empty name is rejected as invalid and the filesystem is left
/// untouched.
pub proof fn lemma_empty_name_rejected(
    kind: ProjectKind,
    destination: Option<Seq<char>>,
    fs: FsState,
)
    ensures
        scaffold_outcome(kind, Seq::empty(), destination, fs) == (
            fs,
            Err::<(), ScaffoldErrorView>(ScaffoldErrorView::InvalidName),
        ),
{
}

/// Law: a name with a non-ASCII character is rejected as invalid and the
/// filesystem is left untouched.
pub proof fn lemma_non_ascii_name_rejected(
    kind: ProjectKind,
    name: Seq<char>,
    destination: Option<Seq<char>>,
    fs: FsState,
)
    requires
        !is_ascii_chars(name),
    ensures
        scaffold_outcome(kind, name, destination, fs) == (
            fs,
            Err::<(), ScaffoldErrorView>(ScaffoldErrorView::InvalidName),
        ),
{
}

/// Law: the manifest a scaffold writes contains no remaining placeholder
/// token, for every name that shares no character with the placeholder (in
/// particular every name without `_`, `n`, `a`, `m`, `e`).
pub proof fn lemma_manifest_no_placeholder_left(kind: ProjectKind, name: Seq<char>)
    requires
        name.len() > 0,
        forall|i: int| 0 <= i < name.len() ==> !PLACEHOLDER@.contains(#[trigger] name[i]),
    ensures
        !contains_token(replaced(manifest_template(kind), PLACEHOLDER@, name), PLACEHOLDER@),
{
    reveal_strlit("___name___");
    lemma_replaced_no_token(manifest_template(kind), PLACEHOLDER@, name);
}

/// Law: a scaffold succeeds exactly when the name is valid and neither the
/// resolved root directory nor its `src` subdirectory exists yet.
pub proof fn lemma_create_succeeds_iff(
    kind: ProjectKind,
    name: Seq<char>,
    destination: Option<Seq<char>>,
    fs: FsState,
)
    ensures
        ({
            let root = resolved_root(name, destination);
            scaffold_outcome(kind, name, destination, fs).1 is Ok <==> valid_name(name)
                && !fs.has_dir(root) && !fs.has_dir(root + "/src"@)
        }),
{
    let root = resolved_root(name, destination);
    let src_dir = root + "/src"@;
    assert(src_dir.len() > root.len()) by {
        reveal_strlit("/src");
    }
    if valid_name(name) && !fs.has_dir(root) {
        let fs1 = fs.mkdir(root);
        assert(fs1.has_dir(src_dir) <==> fs.has_dir(src_dir)) by {
            if fs1.dirs.contains(src_dir) {
                let k = choose|k: int| 0 <= k < fs1.dirs.len() && fs1.dirs[k] == src_dir;
                assert(k < fs.dirs.len());
            }
            if fs.dirs.contains(src_dir) {
                let k = choose|k: int| 0 <= k < fs.dirs.len() && fs.dirs[k] == src_dir;
                assert(fs1.dirs[k] == src_dir);
            }
        }
    }
}

/// Law: a successful scaffold creates exactly the root directory and its
/// `src` subdirectory, and writes exactly two files — the manifest at the
/// root, with the name substituted for every placeholder occurrence, and the
/// source stub, verbatim, under `src`.
pub proof fn lemma_scaffold_layout(
    kind: ProjectKind,
    name: Seq<char>,
    destination: Option<Seq<char>>,
    fs: FsState,
)
    requires
        scaffold_outcome(kind, name, destination, fs).1 is Ok,
    ensures
        ({
            let root = resolved_root(name, destination);
            let (fs1, _) = scaffold_outcome(kind, name, destination, fs);
            &&& fs1.dirs == fs.dirs.push(root).push(root + "/src"@)
            &&& fs1.files == fs.files.push(
                (root + "/Cargo.toml"@, replaced(manifest_template(kind), PLACEHOLDER@, name)),
            ).push((root + source_rel_path(kind), source_template(kind)))
        }),
{
}

/// Law: scaffolding the same valid name twice with no destination fails the
/// second time with a directory-already-exists error on the root, and the
/// second invocation leaves the first invocation's output unmodified.
pub proof fn lemma_create_twice_fails(kind: ProjectKind, name: Seq<char>, fs: FsState)
    requires
        scaffold_outcome(kind, name, None, fs).1 == Ok::<(), ScaffoldErrorView>(()),
    ensures
        ({
            let (fs1, _) = scaffold_outcome(kind, name, None, fs);
            let (fs2, r2) = scaffold_outcome(kind, name, None, fs1);
            fs2 == fs1 && r2 == Err::<(), ScaffoldErrorView>(
                ScaffoldErrorView::IoError(IoOp::CreateDirectory, name),
            )
        }),
{
    let (fs1, _) = scaffold_outcome(kind, name, None, fs);
    assert(fs1.dirs[fs.dirs.len() as int] == name);
    assert(fs1.has_dir(name));
}

/// Law: with an explicit destination, the root directory the scaffold
/// creates is the destination path, whatever the name resolves to.
pub proof fn lemma_destination_overrides_name(
    kind: ProjectKind,
    name: Seq<char>,
    destination: Seq<char>,
    fs: FsState,
)
    requires
        scaffold_outcome(kind, name, Some(destination), fs).1 == Ok::<(), ScaffoldErrorView>(()),
    ensures
        ({
            let (fs1, _) = scaffold_outcome(kind, name, Some(destination), fs);
            fs1.dirs == fs.dirs.push(destination).push(destination + "/src"@)
        }),
{
}

} // verus!
