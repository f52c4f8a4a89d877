//! Library for describing a project's declared dependencies: it detects the
//! project type from marker files, extracts dependency names from the
//! manifest text, and pairs each name with a one-line description obtained
//! from a package registry, substituting a fixed sentinel when a lookup
//! fails.

pub mod drivers;
pub mod enrich;
pub mod errors;
pub mod json;
pub mod node_driver;
pub mod project;
pub mod registry;
pub mod rust_driver;
pub mod strutil;
