//! The facts this crate reads out of the target crate's package descriptor.
//! Loading and parsing the descriptor itself happens outside this crate; the
//! caller hands the result in as plain values.

pub mod npm;

use vstd::prelude::*;
use crate::command::build::BuildProfile;

verus! {

/// The per-profile knobs of the bindings generator and the optimizer, as the
/// target crate's descriptor configures them.
#[derive(Debug)]
pub struct ProfileConfig {
    /// Pass `--debug` to the bindings generator.
    pub wasm_bindgen_debug_js_glue: bool,
    /// Keep name-section demangling on (its absence passes `--no-demangle`).
    pub wasm_bindgen_demangle_name_section: bool,
    /// Pass `--keep-debug` to the bindings generator.
    pub wasm_bindgen_dwarf_debug_info: bool,
    /// The optimizer's arguments; `None` means the optimizer never runs for
    /// this profile.
    pub wasm_opt_args: Option<Vec<String>>,
}

/// What the pipeline needs to know about the target crate.
#[derive(Debug)]
pub struct CrateInfo {
    /// The crate names whose module artifacts the build produces.
    pub crate_name: Vec<String>,
    /// The compiler's build directory.
    pub target_directory: String,
    /// True when the crate type only contains a binary, so that no bindings
    /// are needed and the artifact is copied directly.
    pub bin_only: bool,
    /// The knobs for a development build.
    pub dev: ProfileConfig,
    /// The knobs for a release build.
    pub release: ProfileConfig,
    /// The knobs for a profiling build.
    pub profiling: ProfileConfig,
}

/// The profile configuration that `profile` selects out of `data`.
pub open spec fn spec_configured_profile(data: CrateInfo, profile: BuildProfile) -> ProfileConfig {
    match profile {
        BuildProfile::Dev => data.dev,
        BuildProfile::Release => data.release,
        BuildProfile::Profiling => data.profiling,
    }
}

impl CrateInfo {
    /// The configuration the active profile selects.
    pub fn configured_profile(&self, profile: BuildProfile) -> (r: &ProfileConfig)
        ensures
            *r == spec_configured_profile(*self, profile),
    {
        match profile {
            BuildProfile::Dev => &self.dev,
            BuildProfile::Release => &self.release,
            BuildProfile::Profiling => &self.profiling,
        }
    }

    /// Whether the target is binary-only, which makes the bindings steps
    /// unnecessary and the direct artifact copy necessary.
    pub fn check_crate_type(&self) -> (r: bool)
        ensures
            r == self.bin_only,
    {
        self.bin_only
    }
}

} // verus!
