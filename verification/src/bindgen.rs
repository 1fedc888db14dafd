//! Running the bindings generator over the compiled module artifacts: the
//! exact command line for each crate name, derived from the build's
//! configuration.

use vstd::prelude::*;
use vstd::string::StringExecFns;
use crate::cache::download_binary_path;
use crate::command::build::{spec_wasm_artifact_path, wasm_artifact_path, BuildProfile};
use crate::error::Error;
use crate::invoke::Invocation;
use crate::manifest::{spec_configured_profile, CrateInfo};

verus! {

/// The bindings generator's argument list for one crate name: the output
/// directory, the TypeScript toggle, the runtime target, the optional
/// output-name override, the profile-derived debug flags, and the module
/// artifact last.
pub open spec fn spec_bindgen_args(
    data: CrateInfo,
    name: Seq<char>,
    out_dir: Seq<char>,
    out_name: Option<Seq<char>>,
    disable_dts: bool,
    profile: BuildProfile,
    target: Seq<char>,
    run_target: Seq<char>,
    enable_aot: bool,
) -> Seq<Seq<char>> {
    let pc = spec_configured_profile(data, profile);
    let dts = if disable_dts {
        "--no-typescript"@
    } else {
        "--typescript"@
    };
    seq!["--out-dir"@, out_dir, dts, "--target"@, run_target] + (match out_name {
        Some(n) => seq!["--out-name"@, n],
        None => Seq::<Seq<char>>::empty(),
    }) + (if pc.wasm_bindgen_debug_js_glue {
        seq!["--debug"@]
    } else {
        Seq::<Seq<char>>::empty()
    }) + (if !pc.wasm_bindgen_demangle_name_section {
        seq!["--no-demangle"@]
    } else {
        Seq::<Seq<char>>::empty()
    }) + (if pc.wasm_bindgen_dwarf_debug_info {
        seq!["--keep-debug"@]
    } else {
        Seq::<Seq<char>>::empty()
    }) + (if enable_aot {
        seq!["--enable-aot"@]
    } else {
        Seq::<Seq<char>>::empty()
    }) + seq![spec_wasm_artifact_path(data.target_directory@, target, profile, name)]
}

/// Builds the bindings-generator invocations for the current build: one run
/// per crate name, each against that name's module artifact. The only
/// failure is an installation that does not hold the generator's binary.
#[verifier::rlimit(100)]
pub fn wasm_bindgen_build(
    data: &CrateInfo,
    bindgen: &binary_install::Download,
    out_dir: &str,
    out_name: &Option<String>,
    disable_dts: bool,
    profile: BuildProfile,
    target: &str,
    run_target: &str,
    enable_aot: bool,
) -> (r: Result<Vec<Invocation>, Error>)
    ensures
        r matches Ok(invs) ==> ({
            &&& invs@.len() == data.crate_name@.len()
            &&& forall|i: int|
                0 <= i < invs@.len() ==> (#[trigger] invs@[i]).program == invs@[0].program
            &&& forall|i: int|
                0 <= i < invs@.len() ==> (#[trigger] invs@[i]).args.deep_view()
                    == spec_bindgen_args(
                    *data,
                    data.crate_name@[i]@,
                    out_dir@,
                    out_name.deep_view(),
                    disable_dts,
                    profile,
                    target@,
                    run_target@,
                    enable_aot,
                )
        }),
        r matches Err(e) ==> (e matches Error::ArchiveIntegrity { tool } && tool@
            == "wasm-bindgen"@),
{
    let bindgen_path = match download_binary_path(bindgen, "wasm-bindgen") {
        Some(p) => p,
        None => {
            return Err(Error::ArchiveIntegrity { tool: String::from_str("wasm-bindgen") });
        },
    };
    let pc = data.configured_profile(profile);
    let mut invs: Vec<Invocation> = Vec::new();
    let n = data.crate_name.len();
    let mut i: usize = 0;
    while i < n
        invariant
            n == data.crate_name@.len(),
            i <= n,
            invs@.len() == i,
            *pc == spec_configured_profile(*data, profile),
            forall|k: int| 0 <= k < i ==> (#[trigger] invs@[k]).program == bindgen_path,
            forall|k: int|
                0 <= k < i ==> (#[trigger] invs@[k]).args.deep_view() == spec_bindgen_args(
                    *data,
                    data.crate_name@[k]@,
                    out_dir@,
                    out_name.deep_view(),
                    disable_dts,
                    profile,
                    target@,
                    run_target@,
                    enable_aot,
                ),
        decreases n - i,
    {
        let name = &data.crate_name[i];
        let mut args: Vec<String> = Vec::new();
        args.push("--out-dir".to_owned());
        args.push(out_dir.to_owned());
        if disable_dts {
            args.push("--no-typescript".to_owned());
        } else {
            args.push("--typescript".to_owned());
        }
        args.push("--target".to_owned());
        args.push(run_target.to_owned());
        match out_name {
            Some(v) => {
                args.push("--out-name".to_owned());
                args.push(v.clone());
            },
            None => {},
        }
        if pc.wasm_bindgen_debug_js_glue {
            args.push("--debug".to_owned());
        }
        if !pc.wasm_bindgen_demangle_name_section {
            args.push("--no-demangle".to_owned());
        }
        if pc.wasm_bindgen_dwarf_debug_info {
            args.push("--keep-debug".to_owned());
        }
        if enable_aot {
            args.push("--enable-aot".to_owned());
        }
        let wasm_path = wasm_artifact_path(
            data.target_directory.as_str(),
            target,
            profile,
            name.as_str(),
        );
        args.push(wasm_path);
        proof {
            assert(args.deep_view() =~= spec_bindgen_args(
                *data,
                data.crate_name@[i as int]@,
                out_dir@,
                out_name.deep_view(),
                disable_dts,
                profile,
                target@,
                run_target@,
                enable_aot,
            ));
        }
        invs.push(Invocation { program: bindgen_path.clone(), args });
        i += 1;
    }
    Ok(invs)
}

} // verus!
