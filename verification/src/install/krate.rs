//! The registry's view of a tool's crate: its newest published version,
//! fetched from the crates.io API.

use vstd::prelude::*;
use vstd::string::StringExecFns;
use crate::error::Error;
use super::tool::Tool;
use super::{http_get, json_string_at, json_string_at_spec};

verus! {

/// The facts this crate needs about a tool's registry entry.
pub struct Krate {
    pub max_version: String,
}

impl Krate {
    /// Fetches the registry document for `tool` and reads the newest
    /// published version out of it; any transport or shape failure is a
    /// `Network` error.
    pub fn new(tool: &Tool) -> (r: Result<Krate, Error>)
        ensures
            r matches Ok(k) ==> (exists|doc: Seq<char>|
                json_string_at_spec(doc, seq!["crate"@, "max_version"@]) == Some(
                    k.max_version@,
                )),
            r matches Err(e) ==> e is Network,
    {
        let url = String::from_str("https://crates.io/api/v1/crates/").concat(tool.name());
        match http_get(url.as_str()) {
            None => Err(Error::Network),
            Some(doc) => {
                let mut path: Vec<String> = Vec::new();
                path.push(String::from_str("crate"));
                path.push(String::from_str("max_version"));
                proof {
                    assert(path.deep_view() =~= seq!["crate"@, "max_version"@]);
                }
                match json_string_at(doc.as_str(), &path) {
                    Some(v) => Ok(Krate { max_version: v }),
                    None => Err(Error::Network),
                }
            },
        }
    }
}

} // verus!
