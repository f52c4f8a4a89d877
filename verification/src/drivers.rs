//! The uniform backend interface: each project type binds a manifest
//! grammar and a registry endpoint behind one `Driver` surface, and
//! `ProjectType::driver` selects the backend — or refuses, for a type that
//! has none yet.

use vstd::prelude::*;

use crate::errors::DepsError;
use crate::json::json_parses;
use crate::node_driver::{package_json_deps, NodeDriver};
use crate::project::ProjectType;
use crate::registry::{config_matches, spec_describe_response};
use crate::rust_driver::{toml_dep_names, RustDriver};

verus! {

/// One per-ecosystem backend: a manifest parser plus a registry client
/// configuration, exposed through a uniform contract.
pub trait Driver: Sized {
    /// What this backend's grammar extracts from a manifest text, or the
    /// fatal error it raises.
    spec fn spec_manifest_deps(&self, text: Seq<char>) -> Result<Seq<Seq<char>>, DepsError>;

    /// The configured registry URL prefix.
    spec fn spec_base_url(&self) -> Seq<char>;

    /// The configured identity header value.
    spec fn spec_user_agent(&self) -> Seq<char>;

    /// The configured JSON Pointer path of the description field.
    spec fn spec_description_pointer(&self) -> Seq<char>;

    /// Extracts the dependency names from a manifest text.
    fn manifest_deps(&self, text: &str) -> (r: Result<Vec<String>, DepsError>)
        ensures
            match r {
                Ok(names) => self.spec_manifest_deps(text@) == Ok::<Seq<Seq<char>>, DepsError>(
                    names.deep_view(),
                ),
                Err(e) => self.spec_manifest_deps(text@) == Err::<Seq<Seq<char>>, DepsError>(e),
            },
    ;

    /// The URL to query for one dependency name.
    fn request_url(&self, name: &str) -> (r: String)
        ensures
            r@ == self.spec_base_url() + name@,
    ;

    /// The identity header value to send with each request.
    fn user_agent(&self) -> (r: String)
        ensures
            r@ == self.spec_user_agent(),
    ;

    /// Judges one lookup response: the trimmed description, or the
    /// recoverable error the response stands for.
    fn describe_response(&self, status: u16, body: &str) -> (r: Result<String, DepsError>)
        ensures
            match r {
                Ok(d) => spec_describe_response(status, body@, self.spec_description_pointer())
                    == Ok::<Seq<char>, DepsError>(d@),
                Err(e) => spec_describe_response(status, body@, self.spec_description_pointer())
                    == Err::<Seq<char>, DepsError>(e),
            },
    ;
}

impl Driver for RustDriver {
    open spec fn spec_manifest_deps(&self, text: Seq<char>) -> Result<Seq<Seq<char>>, DepsError> {
        Ok(toml_dep_names(text))
    }

    open spec fn spec_base_url(&self) -> Seq<char> {
        self.config.base_url@
    }

    open spec fn spec_user_agent(&self) -> Seq<char> {
        self.config.user_agent@
    }

    open spec fn spec_description_pointer(&self) -> Seq<char> {
        self.config.description_pointer@
    }

    fn manifest_deps(&self, text: &str) -> (r: Result<Vec<String>, DepsError>) {
        Ok(crate::rust_driver::get_deps_from_cargo_toml(text))
    }

    fn request_url(&self, name: &str) -> (r: String) {
        crate::registry::request_url(self.config.base_url.as_str(), name)
    }

    fn user_agent(&self) -> (r: String) {
        self.config.user_agent.clone()
    }

    fn describe_response(&self, status: u16, body: &str) -> (r: Result<String, DepsError>) {
        crate::registry::describe_response(status, body, self.config.description_pointer.as_str())
    }
}

impl Driver for NodeDriver {
    open spec fn spec_manifest_deps(&self, text: Seq<char>) -> Result<Seq<Seq<char>>, DepsError> {
        if json_parses(text) {
            Ok(package_json_deps(text))
        } else {
            Err(DepsError::ManifestParseError)
        }
    }

    open spec fn spec_base_url(&self) -> Seq<char> {
        self.config.base_url@
    }

    open spec fn spec_user_agent(&self) -> Seq<char> {
        self.config.user_agent@
    }

    open spec fn spec_description_pointer(&self) -> Seq<char> {
        self.config.description_pointer@
    }

    fn manifest_deps(&self, text: &str) -> (r: Result<Vec<String>, DepsError>) {
        crate::node_driver::get_deps_from_package_json(text)
    }

    fn request_url(&self, name: &str) -> (r: String) {
        crate::registry::request_url(self.config.base_url.as_str(), name)
    }

    fn user_agent(&self) -> (r: String) {
        self.config.user_agent.clone()
    }

    fn describe_response(&self, status: u16, body: &str) -> (r: Result<String, DepsError>) {
        crate::registry::describe_response(status, body, self.config.description_pointer.as_str())
    }
}

/// The backend a resolved project type is bound to; the variant set is
/// closed, so dispatch is a tagged enum rather than a trait object.
pub enum ProjectDriver {
    RustBackend(RustDriver),
    NodeBackend(NodeDriver),
}

impl ProjectType {
    /// Binds this project type to its backend. A type without one —
    /// Python-style projects, so far — is refused with
    /// `UnsupportedProjectType` before any network activity could happen.
    pub fn driver(self, user_agent: &str) -> (r: Result<ProjectDriver, DepsError>)
        ensures
            match self {
                ProjectType::Rust => r matches Ok(ProjectDriver::RustBackend(d)) && config_matches(
                    &d.config,
                    "https://crates.io/api/v1/crates/"@,
                    user_agent@,
                    "/crate/description"@,
                ),
                ProjectType::Node => r matches Ok(ProjectDriver::NodeBackend(d)) && config_matches(
                    &d.config,
                    "https://registry.npmjs.org/"@,
                    user_agent@,
                    "/description"@,
                ),
                ProjectType::Python => r == Err::<ProjectDriver, DepsError>(
                    DepsError::UnsupportedProjectType,
                ),
            },
    {
        match self {
            ProjectType::Rust => Ok(ProjectDriver::RustBackend(RustDriver::new(user_agent))),
            ProjectType::Node => Ok(ProjectDriver::NodeBackend(NodeDriver::new(user_agent))),
            ProjectType::Python => Err(DepsError::UnsupportedProjectType),
        }
    }
}

impl ProjectDriver {
    /// What the bound backend's grammar extracts from a manifest text.
    pub open spec fn spec_manifest_deps(&self, text: Seq<char>) -> Result<
        Seq<Seq<char>>,
        DepsError,
    > {
        match self {
            ProjectDriver::RustBackend(d) => d.spec_manifest_deps(text),
            ProjectDriver::NodeBackend(d) => d.spec_manifest_deps(text),
        }
    }

    /// The bound backend's registry URL prefix.
    pub open spec fn spec_base_url(&self) -> Seq<char> {
        match self {
            ProjectDriver::RustBackend(d) => d.spec_base_url(),
            ProjectDriver::NodeBackend(d) => d.spec_base_url(),
        }
    }

    /// The bound backend's identity header value.
    pub open spec fn spec_user_agent(&self) -> Seq<char> {
        match self {
            ProjectDriver::RustBackend(d) => d.spec_user_agent(),
            ProjectDriver::NodeBackend(d) => d.spec_user_agent(),
        }
    }

    /// The bound backend's description field path.
    pub open spec fn spec_description_pointer(&self) -> Seq<char> {
        match self {
            ProjectDriver::RustBackend(d) => d.spec_description_pointer(),
            ProjectDriver::NodeBackend(d) => d.spec_description_pointer(),
        }
    }

    /// Extracts the dependency names from a manifest text with the bound
    /// backend's grammar.
    pub fn manifest_deps(&self, text: &str) -> (r: Result<Vec<String>, DepsError>)
        ensures
            match r {
                Ok(names) => self.spec_manifest_deps(text@) == Ok::<Seq<Seq<char>>, DepsError>(
                    names.deep_view(),
                ),
                Err(e) => self.spec_manifest_deps(text@) == Err::<Seq<Seq<char>>, DepsError>(e),
            },
    {
        match self {
            ProjectDriver::RustBackend(d) => d.manifest_deps(text),
            ProjectDriver::NodeBackend(d) => d.manifest_deps(text),
        }
    }

    /// The URL to query for one dependency name.
    pub fn request_url(&self, name: &str) -> (r: String)
        ensures
            r@ == self.spec_base_url() + name@,
    {
        match self {
            ProjectDriver::RustBackend(d) => d.request_url(name),
            ProjectDriver::NodeBackend(d) => d.request_url(name),
        }
    }

    /// The identity header value to send with each request.
    pub fn user_agent(&self) -> (r: String)
        ensures
            r@ == self.spec_user_agent(),
    {
        match self {
            ProjectDriver::RustBackend(d) => d.user_agent(),
            ProjectDriver::NodeBackend(d) => d.user_agent(),
        }
    }

    /// Judges one lookup response with the bound backend's field path.
    pub fn describe_response(&self, status: u16, body: &str) -> (r: Result<String, DepsError>)
        ensures
            match r {
                Ok(d) => spec_describe_response(status, body@, self.spec_description_pointer())
                    == Ok::<Seq<char>, DepsError>(d@),
                Err(e) => spec_describe_response(status, body@, self.spec_description_pointer())
                    == Err::<Seq<char>, DepsError>(e),
            },
    {
        match self {
            ProjectDriver::RustBackend(d) => d.describe_response(status, body),
            ProjectDriver::NodeBackend(d) => d.describe_response(status, body),
        }
    }
}

} // verus!
