//! Finds out which dependencies of a package manifest are behind the newest
//! version that the registry has published.
//!
//! The library holds the decisions: how a declared version is read, how a
//! registry reply becomes a list of versions, and when a dependency counts as
//! outdated. Reading files and talking to the registry is left to the caller.

pub mod analysis;
pub mod manifest;
pub mod registry;
pub mod report;
pub mod semantic;
pub mod version;
