//! Turns a directory tree of recorded inputs into a suite of golden-file
//! tests for a single function.
//!
//! The file system is read by the caller; this library decides, from what was
//! read, which directories are groups, which are test cases and which are
//! structural problems, and renders the generated test code as text.
pub mod entry;
pub mod fixtures;
pub mod generate;
pub mod golden;
pub mod laws;
pub mod order;
pub mod outside;
pub mod render;
pub mod signature;
pub mod text;

pub use entry::{DirEntryInfo, Listing, ReadResult};
pub use fixtures::{build_fixture, fixture_tree, nested_fixtures, FixtureParams, InputKind, Unit, INPUT_BIN, INPUT_RS, INPUT_TXT};
pub use golden::{golden_step, outcome_tag, GoldenAction, Outcome};
pub use generate::{parse_attribute, plan_snapshots, snapshot_code, AttrToken, Plan};
pub use order::{entry_le_exec, sort_dir};
pub use render::{harness, render_units, Harness};
pub use signature::{pull_function_description, FnDescription, FnSignature, ParamShape};
