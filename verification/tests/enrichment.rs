use descdeps::drivers::{Driver, ProjectDriver};
use descdeps::enrich::enrich;
use descdeps::errors::DepsError;
use descdeps::node_driver::NodeDriver;
use descdeps::project::ProjectType;
use descdeps::registry::describe_response;
use descdeps::rust_driver::{get_deps_from_cargo_toml, RustDriver};

const SENTINEL: &str = "-- unknown --";

#[test]
fn enrichment_keeps_length_and_order() {
    let names = vec!["a".to_string(), "b".to_string(), "c".to_string()];
    let results = vec![
        Ok("first".to_string()),
        Err(DepsError::BadRegistryStatus(500)),
        Ok("third".to_string()),
    ];
    let pairs = enrich(&names, &results);
    assert_eq!(pairs.len(), 3);
    assert_eq!(pairs[0].name, "a");
    assert_eq!(pairs[1].name, "b");
    assert_eq!(pairs[2].name, "c");
    assert_eq!(pairs[0].description, "first");
    assert_eq!(pairs[1].description, SENTINEL);
    assert_eq!(pairs[2].description, "third");
}

#[test]
fn enrichment_with_all_successes_uses_returned_text() {
    let names = vec!["x".to_string(), "y".to_string()];
    let results = vec![Ok("one".to_string()), Ok("two".to_string())];
    let pairs = enrich(&names, &results);
    assert_eq!(pairs.len(), 2);
    assert_eq!(pairs[0].description, "one");
    assert_eq!(pairs[1].description, "two");
}

#[test]
fn enrichment_with_all_failures_uses_sentinel() {
    let names = vec!["x".to_string(), "y".to_string(), "z".to_string()];
    let results = vec![
        Err(DepsError::NetworkFailure),
        Err(DepsError::MissingDescriptionField),
        Err(DepsError::BadRegistryStatus(404)),
    ];
    let pairs = enrich(&names, &results);
    assert_eq!(pairs.len(), 3);
    for p in &pairs {
        assert_eq!(p.description, SENTINEL);
    }
}

#[test]
fn enrichment_of_nothing_is_nothing() {
    let names: Vec<String> = vec![];
    let results: Vec<Result<String, DepsError>> = vec![];
    assert!(enrich(&names, &results).is_empty());
}

#[test]
fn non_success_status_is_a_bad_status_error() {
    let r = describe_response(404, "{\"description\": \"ok\"}", "/description");
    assert_eq!(r.unwrap_err(), DepsError::BadRegistryStatus(404));
    let r = describe_response(301, "{}", "/description");
    assert_eq!(r.unwrap_err(), DepsError::BadRegistryStatus(301));
}

#[test]
fn found_description_is_trimmed() {
    let r = describe_response(200, "{\"description\": \"  hi there\\t \"}", "/description");
    assert_eq!(r.unwrap(), "hi there");
}

#[test]
fn nested_field_path_is_projected() {
    let body = "{\"crate\": {\"description\": \"Web framework\"}}";
    let r = describe_response(200, body, "/crate/description");
    assert_eq!(r.unwrap(), "Web framework");
}

#[test]
fn missing_field_or_bad_body_is_recoverable() {
    let r = describe_response(200, "{}", "/description");
    assert_eq!(r.unwrap_err(), DepsError::MissingDescriptionField);
    let r = describe_response(200, "not json at all", "/description");
    assert_eq!(r.unwrap_err(), DepsError::MissingDescriptionField);
    let r = describe_response(200, "{\"description\": 7}", "/description");
    assert_eq!(r.unwrap_err(), DepsError::MissingDescriptionField);
}

#[test]
fn rust_driver_is_bound_to_crates_io() {
    let d = RustDriver::new("my-agent");
    assert_eq!(d.request_url("serde"), "https://crates.io/api/v1/crates/serde");
    assert_eq!(d.user_agent(), "my-agent");
}

#[test]
fn node_driver_is_bound_to_npm() {
    let d = NodeDriver::new("me");
    assert_eq!(d.request_url("left-pad"), "https://registry.npmjs.org/left-pad");
    assert_eq!(d.user_agent(), "me");
    let r = d.describe_response(200, "{\"description\": \" pads \"}");
    assert_eq!(r.unwrap(), "pads");
}

#[test]
fn python_backend_is_unsupported() {
    let r = ProjectType::Python.driver("me");
    assert!(matches!(r, Err(DepsError::UnsupportedProjectType)));
}

#[test]
fn type_dispatch_binds_the_matching_backend() {
    match ProjectType::Rust.driver("a").unwrap() {
        ProjectDriver::RustBackend(_) => {}
        _ => panic!("wrong backend"),
    }
    match ProjectType::Node.driver("a").unwrap() {
        ProjectDriver::NodeBackend(_) => {}
        _ => panic!("wrong backend"),
    }
}

#[test]
fn manifest_to_descriptions_end_to_end() {
    let manifest = "[dependencies]\nserde = \"1.0\"\n";
    let names = get_deps_from_cargo_toml(manifest);
    assert_eq!(names, vec!["serde".to_string()]);
    let results: Vec<Result<String, DepsError>> = names
        .iter()
        .map(|n| {
            if n == "serde" {
                Ok("A serialization framework".to_string())
            } else {
                Err(DepsError::NetworkFailure)
            }
        })
        .collect();
    let pairs = enrich(&names, &results);
    assert_eq!(pairs.len(), 1);
    assert_eq!(pairs[0].name, "serde");
    assert_eq!(pairs[0].description, "A serialization framework");
}

#[test]
fn project_driver_parses_with_bound_grammar() {
    let rust = ProjectType::Rust.driver("x").unwrap();
    let deps = rust.manifest_deps("[dependencies]\nlog = \"0.4\"\n").unwrap();
    assert_eq!(deps, vec!["log".to_string()]);

    let node = ProjectType::Node.driver("x").unwrap();
    let deps = node.manifest_deps("{\"dependencies\": {\"react\": \"18\"}}").unwrap();
    assert_eq!(deps, vec!["react".to_string()]);
    let err = node.manifest_deps("{oops").unwrap_err();
    assert_eq!(err, DepsError::ManifestParseError);
}
