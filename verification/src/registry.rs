//! The pure half of the registry client.
//!
//! The outbound GET itself happens outside the library; what comes back —
//! an HTTP status and a response body — is judged here: a non-success
//! status or a body without a string at the configured field path is a
//! recoverable error, and a found description is trimmed.

use vstd::prelude::*;

use crate::errors::DepsError;
use crate::json::{json_parses, json_string_at, parse_json, text_str_at, value_str_at};
use crate::strutil::{concat_str, trim_spec, trim_str};

verus! {

/// Per-driver immutable configuration: where to ask, who is asking, and
/// where in the response the description stands.
pub struct RegistryConfig {
    /// Prefix of every request URL; the looked-up name is appended to it.
    pub base_url: String,
    /// The identifying header value sent with every request.
    pub user_agent: String,
    /// JSON Pointer path of the description field in a response body.
    pub description_pointer: String,
}

/// Whether the three configuration fields hold the given values.
pub open spec fn config_matches(
    c: &RegistryConfig,
    base: Seq<char>,
    agent: Seq<char>,
    pointer: Seq<char>,
) -> bool {
    c.base_url@ == base && c.user_agent@ == agent && c.description_pointer@ == pointer
}

impl RegistryConfig {
    /// Binds a registry endpoint to an identity string.
    pub fn new(base_url: &str, user_agent: &str, description_pointer: &str) -> (r: RegistryConfig)
        ensures
            config_matches(&r, base_url@, user_agent@, description_pointer@),
    {
        RegistryConfig {
            base_url: base_url.to_owned(),
            user_agent: user_agent.to_owned(),
            description_pointer: description_pointer.to_owned(),
        }
    }
}

/// Whether an HTTP status code counts as success.
pub open spec fn status_success(status: u16) -> bool {
    200 <= status < 300
}

/// The request URL for one name: the configured base with the name
/// appended.
pub fn request_url(base_url: &str, name: &str) -> (r: String)
    ensures
        r@ == base_url@ + name@,
{
    concat_str(base_url, name)
}

/// What one lookup response yields: a non-success status is
/// `BadRegistryStatus`; a body that is not JSON, or holds no string at the
/// configured pointer, is `MissingDescriptionField`; otherwise the found
/// description, trimmed of surrounding whitespace.
pub open spec fn spec_describe_response(status: u16, body: Seq<char>, pointer: Seq<char>) -> Result<
    Seq<char>,
    DepsError,
> {
    if !status_success(status) {
        Err(DepsError::BadRegistryStatus(status))
    } else if !json_parses(body) {
        Err(DepsError::MissingDescriptionField)
    } else {
        match text_str_at(body, pointer) {
            Some(d) => Ok(trim_spec(d)),
            None => Err(DepsError::MissingDescriptionField),
        }
    }
}

/// Law: whatever a lookup response holds, judging it never yields a fatal
/// error — each per-item failure stays recoverable and is contained by the
/// enrichment step instead of aborting a run.
pub proof fn lemma_response_errors_are_recoverable(status: u16, body: Seq<char>, pointer: Seq<char>)
    ensures
        spec_describe_response(status, body, pointer) matches Err(e) ==> !e.is_fatal(),
{
}

/// Extracts the description from one lookup response. Every failure here
/// is recoverable: the enrichment step folds it into the sentinel.
pub fn describe_response(status: u16, body: &str, pointer: &str) -> (r: Result<String, DepsError>)
    ensures
        match r {
            Ok(d) => spec_describe_response(status, body@, pointer@)
                == Ok::<Seq<char>, DepsError>(d@),
            Err(e) => spec_describe_response(status, body@, pointer@)
                == Err::<Seq<char>, DepsError>(e),
        },
{
    if !(200 <= status && status < 300) {
        return Err(DepsError::BadRegistryStatus(status));
    }
    match parse_json(body) {
        Err(_) => Err(DepsError::MissingDescriptionField),
        Ok(v) => {
            proof {
                assert(value_str_at(v, pointer@) == text_str_at(body@, pointer@));
            }
            match json_string_at(&v, pointer) {
                Some(d) => Ok(trim_str(d.as_str()).to_owned()),
                None => Err(DepsError::MissingDescriptionField),
            }
        },
    }
}

} // verus!
