use descdeps::errors::DepsError;
use descdeps::project::{
    contains_str, match_project_type, match_single_project_type, resolve, ProjectType,
};

#[test]
fn override_with_absent_marker_fails_with_no_manifest_found() {
    let existing: Vec<String> = vec![];
    let r = resolve(Some("rust"), &existing);
    assert_eq!(r.unwrap_err(), DepsError::NoManifestFound);
}

#[test]
fn unknown_override_fails_with_unknown_project_type() {
    let existing = vec!["Cargo.toml".to_string()];
    let r = resolve(Some("cobol"), &existing);
    assert_eq!(r.unwrap_err(), DepsError::UnknownProjectType);
}

#[test]
fn override_is_case_sensitive() {
    let existing = vec!["Cargo.toml".to_string()];
    let r = resolve(Some("Rust"), &existing);
    assert_eq!(r.unwrap_err(), DepsError::UnknownProjectType);
}

#[test]
fn no_override_and_no_markers_fails_with_no_project_type_detected() {
    let existing = vec!["README.md".to_string(), "src".to_string()];
    let r = resolve(None, &existing);
    assert_eq!(r.unwrap_err(), DepsError::NoProjectTypeDetected);
}

#[test]
fn detection_follows_priority_order() {
    let existing = vec!["package.json".to_string(), "Cargo.toml".to_string()];
    let (t, path) = resolve(None, &existing).unwrap();
    assert_eq!(t, ProjectType::Rust);
    assert_eq!(path, "Cargo.toml");
}

#[test]
fn node_marker_is_detected() {
    let existing = vec!["package.json".to_string()];
    let (t, path) = resolve(None, &existing).unwrap();
    assert_eq!(t, ProjectType::Node);
    assert_eq!(path, "package.json");
}

#[test]
fn matching_override_with_present_marker_succeeds() {
    let existing = vec!["requirements.txt".to_string()];
    let (t, path) = resolve(Some("python"), &existing).unwrap();
    assert_eq!(t, ProjectType::Python);
    assert_eq!(path, "requirements.txt");
}

#[test]
fn single_type_probe_reports_marker() {
    let existing = vec!["package.json".to_string()];
    let r = match_single_project_type(ProjectType::Node, &existing);
    assert_eq!(r, Some((ProjectType::Node, "package.json".to_string())));
    assert_eq!(match_single_project_type(ProjectType::Rust, &existing), None);
}

#[test]
fn full_probe_finds_first_type() {
    let existing = vec!["requirements.txt".to_string()];
    let r = match_project_type(&existing);
    assert_eq!(r, Some((ProjectType::Python, "requirements.txt".to_string())));
    assert_eq!(match_project_type(&Vec::new()), None);
}

#[test]
fn path_matchers_name_the_marker_files() {
    assert_eq!(ProjectType::Rust.get_path_matchers(), vec!["Cargo.toml".to_string()]);
    assert_eq!(ProjectType::Python.get_path_matchers(), vec!["requirements.txt".to_string()]);
    assert_eq!(ProjectType::Node.get_path_matchers(), vec!["package.json".to_string()]);
}

#[test]
fn type_names_round_trip() {
    assert_eq!(ProjectType::from_name("node"), Some(ProjectType::Node));
    assert_eq!(ProjectType::from_name("rust"), Some(ProjectType::Rust));
    assert_eq!(ProjectType::from_name("python"), Some(ProjectType::Python));
    assert_eq!(ProjectType::from_name(""), None);
    assert_eq!(ProjectType::Node.name(), "node");
    assert_eq!(ProjectType::Rust.name(), "rust");
    assert_eq!(ProjectType::Python.name(), "python");
}

#[test]
fn file_presence_is_exact_match() {
    let existing = vec!["Cargo.toml.bak".to_string(), "cargo.toml".to_string()];
    assert!(!contains_str(&existing, "Cargo.toml"));
    assert!(contains_str(&existing, "cargo.toml"));
}
