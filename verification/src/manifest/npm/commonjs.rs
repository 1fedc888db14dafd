//! The CommonJS flavor of the emitted package descriptor.

use vstd::prelude::*;
use super::repository::Repository;

verus! {

/// The fields of a CommonJS package descriptor, assembled from the target
/// crate's own descriptor and the output directory's contents.
pub struct CommonJSPackage {
    pub name: String,
    pub collaborators: Vec<String>,
    pub description: Option<String>,
    pub version: String,
    pub license: Option<String>,
    pub repository: Option<Repository>,
    pub files: Vec<String>,
    pub main: String,
    pub types: Option<String>,
}

} // verus!
