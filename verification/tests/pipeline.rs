//! The step pipeline: its fixed ordering, the per-step skip conditions, the
//! pre-flight configuration check, and whole runs against scripted outcomes.

use rustwasmc::command::build::{
    cargo_build_args, check_crate_config, get_process_steps, interpret_removal, run_plan,
    select_profile, step_skipped, wasm_artifact_path, BuildConfig, BuildProfile, FsOutcome, Step,
    StepOutcome,
};
use rustwasmc::error::Error;
use rustwasmc::install::InstallMode;

fn lib_config(pin: &str) -> BuildConfig {
    BuildConfig {
        bin_only: false,
        profile: BuildProfile::Release,
        mode: InstallMode::Normal,
        enable_aot: false,
        has_wasm_opt_args: false,
        bindgen_version: pin.to_string(),
    }
}

fn bin_config() -> BuildConfig {
    BuildConfig {
        bin_only: true,
        profile: BuildProfile::Release,
        mode: InstallMode::Normal,
        enable_aot: false,
        has_wasm_opt_args: false,
        bindgen_version: String::new(),
    }
}

fn successes(n: usize) -> Vec<StepOutcome> {
    let mut v = Vec::new();
    for _ in 0..n {
        v.push(StepOutcome::Success);
    }
    v
}

#[test]
fn profile_selection_is_exclusive() {
    assert!(matches!(select_profile(false, false, false), Ok(BuildProfile::Release)));
    assert!(matches!(select_profile(false, true, false), Ok(BuildProfile::Release)));
    assert!(matches!(select_profile(true, false, false), Ok(BuildProfile::Dev)));
    assert!(matches!(select_profile(false, false, true), Ok(BuildProfile::Profiling)));
    assert!(matches!(select_profile(true, true, false), Err(Error::Configuration)));
    assert!(matches!(select_profile(true, false, true), Err(Error::Configuration)));
    assert!(matches!(select_profile(false, true, true), Err(Error::Configuration)));
    assert!(matches!(select_profile(true, true, true), Err(Error::Configuration)));
}

#[test]
fn step_sequence_is_fixed() {
    let normal = get_process_steps(InstallMode::Normal);
    assert_eq!(
        normal,
        vec![
            Step::CheckRustcVersion,
            Step::CheckCrateConfig,
            Step::CheckForWasmTarget,
            Step::BuildWasm,
            Step::CreateDir,
            Step::CopyReadme,
            Step::CopyLicense,
            Step::CopyWasm,
            Step::InstallWasmBindgen,
            Step::RunWasmBindgen,
            Step::RunWasmOpt,
            Step::RunSsvmc,
            Step::CreateJson,
        ]
    );
    let force = get_process_steps(InstallMode::Force);
    assert_eq!(force.len(), 10);
    assert_eq!(force[0], Step::BuildWasm);
    let no_install = get_process_steps(InstallMode::NoInstall);
    assert_eq!(no_install, normal);
}

#[test]
fn skip_conditions_follow_the_target_shape() {
    let lib = lib_config("0.2.61");
    assert!(step_skipped(&lib, Step::CopyWasm));
    assert!(!step_skipped(&lib, Step::InstallWasmBindgen));
    assert!(!step_skipped(&lib, Step::RunWasmBindgen));
    assert!(step_skipped(&lib, Step::RunWasmOpt));
    assert!(step_skipped(&lib, Step::RunSsvmc));
    assert!(!step_skipped(&lib, Step::BuildWasm));

    let bin = bin_config();
    assert!(!step_skipped(&bin, Step::CopyWasm));
    assert!(step_skipped(&bin, Step::InstallWasmBindgen));
    assert!(step_skipped(&bin, Step::RunWasmBindgen));
}

#[test]
fn crate_config_check_enforces_the_single_pin() {
    assert!(check_crate_config(&lib_config("0.2.61")).is_ok());
    assert!(check_crate_config(&bin_config()).is_ok());
    match check_crate_config(&lib_config("0.2.60")) {
        Err(Error::VersionMismatch { expected, found }) => {
            assert_eq!(expected, "0.2.61");
            assert_eq!(found, "0.2.60");
        },
        other => panic!("expected a version mismatch, got {:?}", other),
    }
}

#[test]
fn library_run_reaches_bindgen_and_skips_the_copy() {
    let cfg = lib_config("0.2.61");
    let (executed, failure) = run_plan(&cfg, &successes(13));
    assert!(failure.is_none());
    assert!(executed.contains(&Step::InstallWasmBindgen));
    assert!(executed.contains(&Step::RunWasmBindgen));
    assert!(!executed.contains(&Step::CopyWasm));
    assert_eq!(*executed.last().unwrap(), Step::CreateJson);
}

#[test]
fn binary_run_copies_the_artifact_and_skips_bindgen() {
    let cfg = bin_config();
    let (executed, failure) = run_plan(&cfg, &successes(13));
    assert!(failure.is_none());
    assert!(!executed.contains(&Step::InstallWasmBindgen));
    assert!(!executed.contains(&Step::RunWasmBindgen));
    assert!(executed.contains(&Step::CopyWasm));
}

#[test]
fn bad_pin_stops_the_run_before_any_compilation() {
    let cfg = lib_config("0.2.60");
    let (executed, failure) = run_plan(&cfg, &successes(13));
    match failure {
        Some(Error::VersionMismatch { expected, found }) => {
            assert_eq!(expected, "0.2.61");
            assert_eq!(found, "0.2.60");
        },
        other => panic!("expected a version mismatch, got {:?}", other),
    }
    assert_eq!(executed, vec![Step::CheckRustcVersion, Step::CheckCrateConfig]);
    assert!(!executed.contains(&Step::BuildWasm));
}

#[test]
fn first_failure_aborts_the_remaining_steps() {
    let cfg = lib_config("0.2.61");
    // The third consumed outcome belongs to BuildWasm (the configuration
    // check consumes none).
    let events = vec![
        StepOutcome::Success,
        StepOutcome::Success,
        StepOutcome::Failure(Error::Network),
        StepOutcome::Success,
    ];
    let (executed, failure) = run_plan(&cfg, &events);
    assert!(matches!(failure, Some(Error::Network)));
    assert_eq!(
        executed,
        vec![
            Step::CheckRustcVersion,
            Step::CheckCrateConfig,
            Step::CheckForWasmTarget,
            Step::BuildWasm,
        ]
    );
}

#[test]
fn forced_run_skips_the_preflight_checks() {
    let mut cfg = lib_config("0.2.60");
    cfg.mode = InstallMode::Force;
    // The bad pin goes unnoticed: the configuration check never runs.
    let (executed, failure) = run_plan(&cfg, &successes(10));
    assert!(failure.is_none());
    assert!(!executed.contains(&Step::CheckCrateConfig));
    assert_eq!(executed[0], Step::BuildWasm);
}

#[test]
fn aot_enabled_run_still_reaches_the_end() {
    // The ahead-of-time step runs when requested; on a platform without a
    // prebuilt compiler it reports a skip, which counts as a success here.
    let mut cfg = lib_config("0.2.61");
    cfg.enable_aot = true;
    let (executed, failure) = run_plan(&cfg, &successes(13));
    assert!(failure.is_none());
    assert!(executed.contains(&Step::RunSsvmc));
    assert_eq!(*executed.last().unwrap(), Step::CreateJson);
}

#[test]
fn clean_of_a_missing_directory_is_a_reported_error() {
    assert!(interpret_removal(&FsOutcome::Removed).is_ok());
    assert!(matches!(interpret_removal(&FsOutcome::NotFound), Err(Error::FsNotFound)));
}

#[test]
fn compiler_arguments_follow_the_profile() {
    let extra = vec!["--locked".to_string()];
    let dev = cargo_build_args(BuildProfile::Dev, "wasm32-wasi", &extra);
    assert_eq!(dev, vec!["build", "--target", "wasm32-wasi", "--locked"]);
    let release = cargo_build_args(BuildProfile::Release, "wasm32-wasi", &Vec::new());
    assert_eq!(release, vec!["build", "--release", "--target", "wasm32-wasi"]);
    let profiling = cargo_build_args(BuildProfile::Profiling, "wasm32-wasi", &Vec::new());
    assert_eq!(profiling, vec!["build", "--release", "--target", "wasm32-wasi"]);
}

#[test]
fn artifact_path_is_predictable() {
    let p = wasm_artifact_path("/proj/target", "wasm32-wasi", BuildProfile::Release, "demo");
    assert_eq!(p, "/proj/target/wasm32-wasi/release/demo.wasm");
    let d = wasm_artifact_path("t", "wasm32-wasi", BuildProfile::Dev, "x");
    assert_eq!(d, "t/wasm32-wasi/debug/x.wasm");
}
