//! The provisionable external tools.

use vstd::prelude::*;

verus! {

/// A tool that the pipeline can provision: the bindings generator, or the
/// project scaffolding tool.
#[derive(Clone, Copy, Debug, PartialEq, Eq, Structural)]
pub enum Tool {
    WasmBindgen,
    CargoGenerate,
}

/// The canonical binary name of `t`, as probed for on the search path.
pub open spec fn spec_tool_name(t: Tool) -> Seq<char> {
    match t {
        Tool::WasmBindgen => "wasm-bindgen"@,
        Tool::CargoGenerate => "cargo-generate"@,
    }
}

/// The crates.io package that installs `t` from source.
pub open spec fn spec_tool_crate_name(t: Tool) -> Seq<char> {
    match t {
        Tool::WasmBindgen => "wasm-bindgen-cli"@,
        Tool::CargoGenerate => "cargo-generate"@,
    }
}

impl Tool {
    /// The canonical binary name of this tool.
    pub fn name(&self) -> (s: &'static str)
        ensures
            s@ == spec_tool_name(*self),
    {
        match self {
            Tool::WasmBindgen => "wasm-bindgen",
            Tool::CargoGenerate => "cargo-generate",
        }
    }

    /// The crates.io package that installs this tool from source.
    pub fn crate_name(&self) -> (s: &'static str)
        ensures
            s@ == spec_tool_crate_name(*self),
    {
        match self {
            Tool::WasmBindgen => "wasm-bindgen-cli",
            Tool::CargoGenerate => "cargo-generate",
        }
    }
}

} // verus!
