//! The package descriptors this crate can write for the output directory.

mod commonjs;

pub mod repository;

pub use self::commonjs::CommonJSPackage;

use vstd::prelude::*;

verus! {

/// The kinds of package descriptor the pipeline can emit.
pub enum NpmPackage {
    CommonJSPackage(CommonJSPackage),
}

} // verus!
