//! Lifecycle management for isolated script-execution units.
//!
//! A host process runs one "main" unit and any number of nested "child"
//! units. This crate holds everything such a host has to *decide*: which
//! module a unit starts from when the request names a package rather than a
//! file, which settings a unit is bootstrapped with, in which order its
//! lifecycle events are dispatched, and what happens when a collaborator
//! fails. The script engine, the package resolver and the file system are
//! collaborators behind the driver that owns them: every operation that needs
//! one of them is a protocol, advanced one event at a time, that tells the
//! driver which action to perform next and is told the outcome.

use vstd::prelude::*;

pub mod error;
pub mod factory;
pub mod factory_laws;
pub mod options;
pub mod package;
pub mod protocol;
pub mod resolution;
pub mod run_laws;
pub mod text;
pub mod watcher;
pub mod web_worker;
pub mod worker;

verus! {

/// Reports whether a module graph mentions a specifier of the built-in
/// `node:` scheme, which decides whether the node runtime is brought up.
pub trait HasNodeSpecifierChecker: Send + Sync {
    fn has_node_specifier(&self) -> bool;
}

} // verus!
