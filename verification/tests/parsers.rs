use descdeps::errors::DepsError;
use descdeps::node_driver::get_deps_from_package_json;
use descdeps::rust_driver::get_deps_from_cargo_toml;

#[test]
fn toml_without_dependencies_section_yields_nothing() {
    let text = "[package]\nname = \"demo\"\nversion = \"0.1.0\"\n";
    let deps = get_deps_from_cargo_toml(text);
    assert!(deps.is_empty());
}

#[test]
fn toml_section_is_closed_by_next_heading() {
    let text = "[dependencies]\na = \"1\"\nb = \"2\"\n[dev-dependencies]\nc = \"3\"";
    let deps = get_deps_from_cargo_toml(text);
    assert_eq!(deps, vec!["a".to_string(), "b".to_string()]);
}

#[test]
fn toml_names_are_trimmed_and_other_lines_ignored() {
    let text = "prelude\n[dependencies]\n  serde = \"1\"\njust a comment line\n\ntokio=\"1\"\n";
    let deps = get_deps_from_cargo_toml(text);
    assert_eq!(deps, vec!["serde".to_string(), "tokio".to_string()]);
}

#[test]
fn toml_only_first_section_scan_applies() {
    let text = "[dependencies]\na = \"1\"\n[other]\n[dependencies]\nb = \"2\"\n";
    let deps = get_deps_from_cargo_toml(text);
    assert_eq!(deps, vec!["a".to_string()]);
}

#[test]
fn toml_empty_text_yields_nothing() {
    assert!(get_deps_from_cargo_toml("").is_empty());
}

#[test]
fn json_dependencies_keys_are_extracted() {
    let text = "{\"dependencies\": {\"x\": \"1.0\", \"y\": \"2.0\"}}";
    let deps = get_deps_from_package_json(text).unwrap();
    assert_eq!(deps.len(), 2);
    assert!(deps.contains(&"x".to_string()));
    assert!(deps.contains(&"y".to_string()));
}

#[test]
fn json_empty_document_yields_nothing() {
    let deps = get_deps_from_package_json("{}").unwrap();
    assert!(deps.is_empty());
}

#[test]
fn json_malformed_text_is_fatal() {
    let r = get_deps_from_package_json("{not valid json");
    assert_eq!(r.unwrap_err(), DepsError::ManifestParseError);
}

#[test]
fn json_non_object_dependencies_yields_nothing() {
    let deps = get_deps_from_package_json("{\"dependencies\": 3}").unwrap();
    assert!(deps.is_empty());
}
