//! Project scaffolding and build-pipeline orchestration.
//!
//! Two independent components:
//! - the scaffolder (`scaffold::create`) validates a project name and lays out
//!   a new project (a root directory, a `src` subdirectory, a manifest with the
//!   name substituted into a template, and a source stub) over an explicit
//!   filesystem model (`fs_model::FsModel`);
//! - the build-pipeline runner (`pipeline`) decides, step by step, which
//!   external command an embedding program should run next, failing fast on
//!   the first step that reports failure.

pub mod fs_model;
pub mod pipeline;
pub mod scaffold;
pub mod substitute;
