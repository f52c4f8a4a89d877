//! Error taxonomy of the pipeline.
//!
//! The first five variants are fatal: they abort a whole run and are
//! surfaced to the user. The last three are recoverable per-item lookup
//! failures: the enrichment step swallows them and substitutes the sentinel
//! description, so a caller of `enrich` never observes them as errors.

use vstd::prelude::*;

verus! {

#[derive(Clone, Copy, Debug, PartialEq, Eq, Structural)]
pub enum DepsError {
    /// An explicit project-type override did not match any known type name.
    UnknownProjectType,
    /// No override was given and no known marker file is present.
    NoProjectTypeDetected,
    /// An override matched a known type, but its marker file is absent.
    NoManifestFound,
    /// The resolved project type has no registry backend bound to it.
    UnsupportedProjectType,
    /// The manifest text could not be parsed under the type's grammar.
    ManifestParseError,
    /// The registry answered with a non-success HTTP status.
    BadRegistryStatus(u16),
    /// The request never produced a response at all.
    NetworkFailure,
    /// The response body was not JSON, or held no string at the
    /// configured field path.
    MissingDescriptionField,
}

impl DepsError {
    /// A fatal error aborts the whole run; a recoverable one is folded
    /// into the sentinel description by the enrichment step.
    pub open spec fn is_fatal(self) -> bool {
        match self {
            DepsError::UnknownProjectType => true,
            DepsError::NoProjectTypeDetected => true,
            DepsError::NoManifestFound => true,
            DepsError::UnsupportedProjectType => true,
            DepsError::ManifestParseError => true,
            DepsError::BadRegistryStatus(_) => false,
            DepsError::NetworkFailure => false,
            DepsError::MissingDescriptionField => false,
        }
    }
}

} // verus!
