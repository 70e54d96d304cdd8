//! A typed dependency-injection and dispatch framework for command-line
//! tool instances ("fho": Fuchsia host objects).
//!
//! Each tool declares which capabilities it needs; the framework resolves
//! each declared field from a shared environment, gates execution behind
//! precondition checks, and then invokes the tool's entry point. A
//! secondary "metadata" mode introspects a tool's declared command schema
//! without running it.

pub mod dispatch;
pub mod env;
pub mod errors;
pub mod metadata;
pub mod remote;
pub mod resolution;
pub mod runner;
pub mod selector;
pub mod strutil;

pub use metadata::FhoToolMetadata;

use vstd::prelude::*;

verus! {

/// The schema-version marker carried inside a tool's metadata record.
#[derive(Clone, Copy, Debug, PartialEq, Eq, Structural)]
pub enum FhoVersion {
    FhoVersion0,
}

} // verus!
