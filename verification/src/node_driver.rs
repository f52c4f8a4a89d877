//! The Node-style backend: a JSON manifest parser and the npm registry
//! binding.
//!
//! Unlike the TOML-subset grammar, a manifest that is not well-formed JSON
//! is a fatal `ManifestParseError`. A well-formed manifest without a
//! top-level `dependencies` object simply has no dependencies.

use vstd::prelude::*;

use crate::errors::DepsError;
use crate::json::{json_object_keys_at, json_parses, parse_json, text_obj_keys, value_obj_keys};
use crate::registry::{config_matches, RegistryConfig};

verus! {

/// The dependency names of a JSON-style manifest: the keys of the
/// top-level `dependencies` object, in the document map's iteration order,
/// when that member is present and an object; empty otherwise.
pub open spec fn package_json_deps(s: Seq<char>) -> Seq<Seq<char>> {
    match text_obj_keys(s, "/dependencies"@) {
        Some(ks) => ks,
        None => seq![],
    }
}

/// Extracts the dependency names declared in a JSON-style manifest.
/// Returns `ManifestParseError` exactly when the text is not well-formed
/// JSON; an absent or non-object `dependencies` member yields `Ok` with no
/// names.
pub fn get_deps_from_package_json(content: &str) -> (r: Result<Vec<String>, DepsError>)
    ensures
        r is Ok <==> json_parses(content@),
        r matches Ok(names) ==> names.deep_view() == package_json_deps(content@),
        r matches Err(e) ==> e == DepsError::ManifestParseError,
{
    match parse_json(content) {
        Err(_) => Err(DepsError::ManifestParseError),
        Ok(v) => {
            proof {
                assert(value_obj_keys(v, "/dependencies"@) == text_obj_keys(
                    content@,
                    "/dependencies"@,
                ));
            }
            match json_object_keys_at(&v, "/dependencies") {
                Some(keys) => Ok(keys),
                None => {
                    let names: Vec<String> = Vec::new();
                    proof {
                        assert(names.deep_view() =~= package_json_deps(content@));
                    }
                    Ok(names)
                },
            }
        },
    }
}

/// The backend for Node-style projects, bound to the npm registry.
pub struct NodeDriver {
    pub config: RegistryConfig,
}

impl NodeDriver {
    /// Binds the npm registry endpoint to the caller's identity string.
    pub fn new(user_agent: &str) -> (r: Self)
        ensures
            config_matches(
                &r.config,
                "https://registry.npmjs.org/"@,
                user_agent@,
                "/description"@,
            ),
    {
        NodeDriver {
            config: RegistryConfig::new("https://registry.npmjs.org/", user_agent, "/description"),
        }
    }
}

} // verus!
