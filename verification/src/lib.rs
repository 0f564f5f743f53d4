//! A verified core for a task runner built on an embedded shell engine.
//!
//! The runner discovers a project root by walking the directory tree for a
//! marker file, layers configuration (environment script, config script, task
//! files with safe fallbacks), splits the command line into runner flags and a
//! task invocation, resolves a space-separated task name by longest matching
//! safe prefix against the engine's declaration table, and maps evaluation
//! outcomes to process exit codes.
//!
//! Everything that decides or computes lives here and is verified; reading
//! files, evaluating scripts and process control are left to the embedding
//! program, which hands plain values in and out.

pub mod args;
pub mod engine;
pub mod errors;
pub mod execute;
pub mod names;
pub mod path;
pub mod scripts;
pub mod state;
pub mod text;

use vstd::prelude::*;

verus! {

/// Types with a canonical empty value.
pub trait NewEmpty: Sized {
    fn empty() -> Self;
}

} // verus!
