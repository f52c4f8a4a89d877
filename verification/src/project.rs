//! Project-type detection and resolution.
//!
//! A project type is recognised by a marker file in the working directory.
//! The library never touches the filesystem: callers hand it the names of
//! the files that exist, and resolution is a pure decision over that list,
//! honouring an optional explicit type override.

use vstd::prelude::*;

use crate::errors::DepsError;
use crate::strutil::str_eq;

verus! {

/// The closed set of project ecosystems the pipeline knows about, in
/// detection priority order.
#[derive(Clone, Copy, Debug, PartialEq, Eq, Structural)]
pub enum ProjectType {
    Rust,
    Python,
    Node,
}

/// The identifier a type override must match, case-sensitively.
pub open spec fn type_label(t: ProjectType) -> Seq<char> {
    match t {
        ProjectType::Rust => "rust"@,
        ProjectType::Python => "python"@,
        ProjectType::Node => "node"@,
    }
}

/// The marker file whose presence identifies a project type.
pub open spec fn marker_file(t: ProjectType) -> Seq<char> {
    match t {
        ProjectType::Rust => "Cargo.toml"@,
        ProjectType::Python => "requirements.txt"@,
        ProjectType::Node => "package.json"@,
    }
}

/// The type an override string designates, if any.
pub open spec fn name_to_type(s: Seq<char>) -> Option<ProjectType> {
    if s == type_label(ProjectType::Rust) {
        Some(ProjectType::Rust)
    } else if s == type_label(ProjectType::Python) {
        Some(ProjectType::Python)
    } else if s == type_label(ProjectType::Node) {
        Some(ProjectType::Node)
    } else {
        None
    }
}

/// Whether a file name occurs in the list of files that exist.
pub open spec fn file_present(existing: Seq<Seq<char>>, f: Seq<char>) -> bool {
    exists|i: int| 0 <= i < existing.len() && existing[i] == f
}

/// The first type, in priority order, whose marker file exists.
pub open spec fn detected(existing: Seq<Seq<char>>) -> Option<ProjectType> {
    if file_present(existing, marker_file(ProjectType::Rust)) {
        Some(ProjectType::Rust)
    } else if file_present(existing, marker_file(ProjectType::Python)) {
        Some(ProjectType::Python)
    } else if file_present(existing, marker_file(ProjectType::Node)) {
        Some(ProjectType::Node)
    } else {
        None
    }
}

/// What resolution returns: with an override, the override must name a
/// known type and that type's marker file must exist; without one, the
/// first type whose marker file exists wins.
pub open spec fn spec_resolve(override_name: Option<Seq<char>>, existing: Seq<Seq<char>>) -> Result<
    (ProjectType, Seq<char>),
    DepsError,
> {
    match override_name {
        Some(s) => match name_to_type(s) {
            None => Err(DepsError::UnknownProjectType),
            Some(t) => if file_present(existing, marker_file(t)) {
                Ok((t, marker_file(t)))
            } else {
                Err(DepsError::NoManifestFound)
            },
        },
        None => match detected(existing) {
            Some(t) => Ok((t, marker_file(t))),
            None => Err(DepsError::NoProjectTypeDetected),
        },
    }
}

/// The view of an optional override string.
pub open spec fn opt_view(o: Option<&str>) -> Option<Seq<char>> {
    match o {
        Some(s) => Some(s@),
        None => None,
    }
}

impl ProjectType {
    /// The identifier of this type, as `type_label` gives it.
    pub fn name(self) -> (r: String)
        ensures
            r@ == type_label(self),
    {
        match self {
            ProjectType::Rust => "rust".to_owned(),
            ProjectType::Python => "python".to_owned(),
            ProjectType::Node => "node".to_owned(),
        }
    }

    /// Parses an override string into a project type.
    pub fn from_name(s: &str) -> (r: Option<ProjectType>)
        ensures
            r == name_to_type(s@),
    {
        if str_eq(s, "rust") {
            Some(ProjectType::Rust)
        } else if str_eq(s, "python") {
            Some(ProjectType::Python)
        } else if str_eq(s, "node") {
            Some(ProjectType::Node)
        } else {
            None
        }
    }

    /// The marker file paths probed for this type.
    pub fn get_path_matchers(self) -> (r: Vec<String>)
        ensures
            r.deep_view() == seq![marker_file(self)],
    {
        let mut r: Vec<String> = Vec::new();
        let m = match self {
            ProjectType::Rust => "Cargo.toml".to_owned(),
            ProjectType::Python => "requirements.txt".to_owned(),
            ProjectType::Node => "package.json".to_owned(),
        };
        r.push(m);
        proof {
            assert(r.deep_view() =~= seq![marker_file(self)]);
        }
        r
    }
}

/// Whether the list of existing files holds the given name.
pub fn contains_str(existing: &Vec<String>, f: &str) -> (r: bool)
    ensures
        r == file_present(existing.deep_view(), f@),
{
    let mut i: usize = 0;
    while i < existing.len()
        invariant
            i <= existing@.len(),
            forall|m: int| 0 <= m < i ==> existing@[m]@ != f@,
        decreases existing@.len() - i,
    {
        if str_eq(existing[i].as_str(), f) {
            assert(existing.deep_view()[i as int] == f@);
            return true;
        }
        i = i + 1;
    }
    assert(!file_present(existing.deep_view(), f@)) by {
        assert(forall|m: int|
            0 <= m < existing.deep_view().len() ==> #[trigger] existing.deep_view()[m] == existing@[m]@);
    }
    false
}

/// Probes one project type: returns the type and its marker file path when
/// that marker is among the existing files.
pub fn match_single_project_type(project_type: ProjectType, existing: &Vec<String>) -> (r: Option<
    (ProjectType, String),
>)
    ensures
        match r {
            Some(p) => p.0 == project_type && p.1@ == marker_file(project_type) && file_present(
                existing.deep_view(),
                marker_file(project_type),
            ),
            None => !file_present(existing.deep_view(), marker_file(project_type)),
        },
{
    let matchers = project_type.get_path_matchers();
    proof {
        assert(matchers.deep_view().len() == 1);
        assert(matchers@.len() == 1);
        assert(matchers@[0]@ == matchers.deep_view()[0]);
    }
    let mut i: usize = 0;
    while i < matchers.len()
        invariant
            i <= matchers@.len(),
            matchers@.len() == 1,
            matchers.deep_view() == seq![marker_file(project_type)],
            forall|m: int| 0 <= m < i ==> !file_present(
                existing.deep_view(),
                #[trigger] matchers@[m]@,
            ),
        decreases matchers@.len() - i,
    {
        assert(matchers@[i as int]@ == matchers.deep_view()[i as int]);
        if contains_str(existing, matchers[i].as_str()) {
            let path = matchers[i].clone();
            assert(path@ == marker_file(project_type));
            return Some((project_type, path));
        }
        i = i + 1;
    }
    None
}

/// Probes every known type in priority order and returns the first whose
/// marker file exists.
pub fn match_project_type(existing: &Vec<String>) -> (r: Option<(ProjectType, String)>)
    ensures
        match r {
            Some(p) => detected(existing.deep_view()) == Some(p.0) && p.1@ == marker_file(p.0),
            None => detected(existing.deep_view()) is None,
        },
{
    if let Some(p) = match_single_project_type(ProjectType::Rust, existing) {
        return Some(p);
    }
    if let Some(p) = match_single_project_type(ProjectType::Python, existing) {
        return Some(p);
    }
    if let Some(p) = match_single_project_type(ProjectType::Node, existing) {
        return Some(p);
    }
    None
}

/// Resolves the project type to work on, from an optional override and the
/// list of files that exist in the working directory. Fails with
/// `UnknownProjectType` when the override names no known type, with
/// `NoManifestFound` when it names one whose marker file is absent, and
/// with `NoProjectTypeDetected` when there is no override and no marker
/// file of any type exists.
pub fn resolve(override_name: Option<&str>, existing: &Vec<String>) -> (r: Result<
    (ProjectType, String),
    DepsError,
>)
    ensures
        match r {
            Ok(p) => spec_resolve(opt_view(override_name), existing.deep_view())
                == Ok::<(ProjectType, Seq<char>), DepsError>((p.0, p.1@)),
            Err(e) => spec_resolve(opt_view(override_name), existing.deep_view())
                == Err::<(ProjectType, Seq<char>), DepsError>(e),
        },
{
    match override_name {
        Some(s) => match ProjectType::from_name(s) {
            None => Err(DepsError::UnknownProjectType),
            Some(t) => match match_single_project_type(t, existing) {
                Some(p) => Ok(p),
                None => Err(DepsError::NoManifestFound),
            },
        },
        None => match match_project_type(existing) {
            Some(p) => Ok(p),
            None => Err(DepsError::NoProjectTypeDetected),
        },
    }
}

} // verus!
