//! The repository reference of an emitted package descriptor.

use vstd::prelude::*;

verus! {

/// Where the packaged project's sources live.
pub struct Repository {
    /// The version-control flavor of the reference.
    pub ty: String,
    /// The location itself.
    pub url: String,
}

} // verus!
