//! The build command: its options, the exclusive profile selection, the
//! fixed step sequence, each step's skip condition, and the run of the
//! sequence against the outcomes of the outside work.

use vstd::prelude::*;
use vstd::string::StringExecFns;
use crate::error::Error;
use crate::install::mode::InstallMode;
use crate::install::ProvisionedTool;
use crate::manifest::{spec_configured_profile, CrateInfo};
use crate::strutil::str_eq;

verus! {

/// The build profile controls whether optimizations, debug info, and
/// assertions are enabled or disabled.
#[derive(Clone, Copy, Debug, PartialEq, Eq, Structural)]
pub enum BuildProfile {
    /// Enable assertions and debug info. Disable optimizations.
    Dev,
    /// Enable optimizations. Disable assertions and debug info.
    Release,
    /// Enable optimizations and debug info. Disable assertions.
    Profiling,
}

/// Everything the caller can ask of a build.
pub struct BuildOptions {
    /// The path to the target crate; resolved by the caller when absent.
    pub path: Option<String>,
    /// The npm scope to use in the package descriptor, if any.
    pub scope: Option<String>,
    /// Which pre-flight checks and installs are permitted.
    pub mode: InstallMode,
    /// The runtime the generated bindings address.
    pub target: String,
    /// Enable the ahead-of-time compile step.
    pub enable_aot: bool,
    /// Require the runtime's extended module instead of the plain one.
    pub enable_ext: bool,
    /// Do not emit a TypeScript declaration file.
    pub disable_dts: bool,
    /// Request a development build.
    pub dev: bool,
    /// Request a release build.
    pub release: bool,
    /// Request a profiling build.
    pub profiling: bool,
    /// The output directory, relative to the crate.
    pub out_dir: String,
    /// Overrides the output file names.
    pub out_name: Option<String>,
    /// Extra options handed through to the compiler.
    pub extra_options: Vec<String>,
}

impl Default for BuildOptions {
    fn default() -> (r: Self)
        ensures
            r.path is None,
            r.scope is None,
            r.mode is Normal,
            r.target@ == "ssvm"@,
            !r.enable_aot,
            !r.enable_ext,
            r.disable_dts,
            !r.dev,
            !r.release,
            !r.profiling,
            r.out_dir@ == "pkg"@,
            r.out_name is None,
            r.extra_options@.len() == 0,
    {
        BuildOptions {
            path: None,
            scope: None,
            mode: InstallMode::Normal,
            target: String::from_str("ssvm"),
            enable_aot: false,
            enable_ext: false,
            disable_dts: true,
            dev: false,
            release: false,
            profiling: false,
            out_dir: String::from_str("pkg"),
            out_name: None,
            extra_options: Vec::new(),
        }
    }
}

/// Derives the build profile from the three request flags. Exactly one
/// profile is active per build: a configuration that requests more than one
/// is rejected before any step runs, and no request at all means a release
/// build.
pub fn select_profile(dev: bool, release: bool, profiling: bool) -> (r: Result<
    BuildProfile,
    Error,
>)
    ensures
        !dev && !profiling ==> (r matches Ok(p) && p is Release),
        dev && !release && !profiling ==> (r matches Ok(p) && p is Dev),
        !dev && !release && profiling ==> (r matches Ok(p) && p is Profiling),
        (dev && release) || (dev && profiling) || (release && profiling) ==> (r matches Err(e)
            && e is Configuration),
{
    match (dev, release, profiling) {
        (false, false, false) => Ok(BuildProfile::Release),
        (false, true, false) => Ok(BuildProfile::Release),
        (true, false, false) => Ok(BuildProfile::Dev),
        (false, false, true) => Ok(BuildProfile::Profiling),
        _ => Err(Error::Configuration),
    }
}

/// The output subdirectory the compiler uses for `profile`.
pub open spec fn spec_release_or_debug(profile: BuildProfile) -> Seq<char> {
    match profile {
        BuildProfile::Dev => "debug"@,
        _ => "release"@,
    }
}

/// The compiler's output subdirectory for `profile`.
pub fn release_or_debug(profile: BuildProfile) -> (r: &'static str)
    ensures
        r@ == spec_release_or_debug(profile),
{
    match profile {
        BuildProfile::Dev => "debug",
        _ => "release",
    }
}

/// The compiler's arguments for one build: optimizations per profile, the
/// compilation target, and the user's extra options last.
pub open spec fn spec_cargo_build_args(
    profile: BuildProfile,
    target: Seq<char>,
    extra: Seq<Seq<char>>,
) -> Seq<Seq<char>> {
    let base = if profile is Dev {
        seq!["build"@]
    } else {
        seq!["build"@, "--release"@]
    };
    base + seq!["--target"@, target] + extra
}

/// Builds the compiler's argument list for this build.
pub fn cargo_build_args(profile: BuildProfile, target: &str, extra: &Vec<String>) -> (r: Vec<
    String,
>)
    ensures
        r.deep_view() == spec_cargo_build_args(profile, target@, extra.deep_view()),
{
    let mut args: Vec<String> = Vec::new();
    args.push(String::from_str("build"));
    if !matches!(profile, BuildProfile::Dev) {
        args.push(String::from_str("--release"));
    }
    args.push(String::from_str("--target"));
    args.push(target.to_owned());
    let n = extra.len();
    let mut i: usize = 0;
    while i < n
        invariant
            n == extra@.len(),
            i <= n,
            args.deep_view() =~= spec_cargo_build_args(profile, target@, extra.deep_view().take(
                i as int,
            )),
        decreases n - i,
    {
        let ghost pre = args.deep_view();
        args.push(extra[i].clone());
        proof {
            let x = extra@[i as int]@;
            assert(args.deep_view() =~= pre.push(x));
            assert(extra.deep_view().take(i as int + 1) =~= extra.deep_view().take(
                i as int,
            ).push(x));
            assert(spec_cargo_build_args(profile, target@, extra.deep_view().take(i as int + 1))
                =~= pre.push(x));
        }
        i += 1;
    }
    proof {
        assert(extra.deep_view().take(n as int) =~= extra.deep_view());
    }
    args
}

/// The predictable location of a compiled module artifact:
/// `<target-root>/<target-triple>/<release|debug>/<name>.wasm`.
pub open spec fn spec_wasm_artifact_path(
    target_dir: Seq<char>,
    target: Seq<char>,
    profile: BuildProfile,
    name: Seq<char>,
) -> Seq<char> {
    target_dir + "/"@ + target + "/"@ + spec_release_or_debug(profile) + "/"@ + name
        + ".wasm"@
}

/// Names the module artifact the compiler produces for one crate name.
pub fn wasm_artifact_path(target_dir: &str, target: &str, profile: BuildProfile, name: &str)
    -> (r: String)
    ensures
        r@ == spec_wasm_artifact_path(target_dir@, target@, profile, name@),
{
    let s = target_dir.to_owned();
    let s = s.concat("/");
    let s = s.concat(target);
    let s = s.concat("/");
    let s = s.concat(release_or_debug(profile));
    let s = s.concat("/");
    let s = s.concat(name);
    let s = s.concat(".wasm");
    proof {
        assert(s@ =~= spec_wasm_artifact_path(target_dir@, target@, profile, name@));
    }
    s
}

/// The named steps of the pipeline, in their fixed order.
#[derive(Clone, Copy, Debug, PartialEq, Eq, Structural)]
pub enum Step {
    CheckRustcVersion,
    CheckCrateConfig,
    CheckForWasmTarget,
    BuildWasm,
    CreateDir,
    CopyReadme,
    CopyLicense,
    CopyWasm,
    InstallWasmBindgen,
    RunWasmBindgen,
    RunWasmOpt,
    RunSsvmc,
    CreateJson,
}

/// The fixed, strictly linear step sequence for a mode: forcing skips the
/// three pre-flight checks and nothing else.
pub open spec fn spec_process_steps(mode: InstallMode) -> Seq<Step> {
    let main = seq![
        Step::BuildWasm,
        Step::CreateDir,
        Step::CopyReadme,
        Step::CopyLicense,
        Step::CopyWasm,
        Step::InstallWasmBindgen,
        Step::RunWasmBindgen,
        Step::RunWasmOpt,
        Step::RunSsvmc,
        Step::CreateJson,
    ];
    if mode is Force {
        main
    } else {
        seq![Step::CheckRustcVersion, Step::CheckCrateConfig, Step::CheckForWasmTarget] + main
    }
}

/// The step sequence the pipeline runs in `mode`.
pub fn get_process_steps(mode: InstallMode) -> (r: Vec<Step>)
    ensures
        r@ == spec_process_steps(mode),
{
    let mut steps: Vec<Step> = Vec::new();
    if !matches!(mode, InstallMode::Force) {
        steps.push(Step::CheckRustcVersion);
        steps.push(Step::CheckCrateConfig);
        steps.push(Step::CheckForWasmTarget);
    }
    steps.push(Step::BuildWasm);
    steps.push(Step::CreateDir);
    steps.push(Step::CopyReadme);
    steps.push(Step::CopyLicense);
    steps.push(Step::CopyWasm);
    steps.push(Step::InstallWasmBindgen);
    steps.push(Step::RunWasmBindgen);
    steps.push(Step::RunWasmOpt);
    steps.push(Step::RunSsvmc);
    steps.push(Step::CreateJson);
    proof {
        assert(steps@ =~= spec_process_steps(mode));
    }
    steps
}

/// What a step's skip condition reads out of the build.
pub struct BuildConfig {
    /// The target is binary-only: no bindings, direct artifact copy.
    pub bin_only: bool,
    /// The active profile.
    pub profile: BuildProfile,
    /// The active install mode.
    pub mode: InstallMode,
    /// The ahead-of-time compile step was requested.
    pub enable_aot: bool,
    /// The descriptor declares optimizer arguments for the active profile.
    pub has_wasm_opt_args: bool,
    /// The bindings-generator version the target crate's lockfile pins.
    pub bindgen_version: String,
}

/// Whether a step no-ops for this build: the bindings steps are unnecessary
/// for a binary-only target, the direct copy is unnecessary for any other,
/// the optimizer runs only when configured, and the ahead-of-time compile
/// only when requested.
pub open spec fn spec_step_skipped(cfg: BuildConfig, s: Step) -> bool {
    match s {
        Step::CopyWasm => !cfg.bin_only,
        Step::InstallWasmBindgen => cfg.bin_only,
        Step::RunWasmBindgen => cfg.bin_only,
        Step::RunWasmOpt => !cfg.has_wasm_opt_args,
        Step::RunSsvmc => !cfg.enable_aot,
        _ => false,
    }
}

/// Whether `s` no-ops for this build.
pub fn step_skipped(cfg: &BuildConfig, s: Step) -> (r: bool)
    ensures
        r == spec_step_skipped(*cfg, s),
{
    match s {
        Step::CopyWasm => !cfg.bin_only,
        Step::InstallWasmBindgen => cfg.bin_only,
        Step::RunWasmBindgen => cfg.bin_only,
        Step::RunWasmOpt => !cfg.has_wasm_opt_args,
        Step::RunSsvmc => !cfg.enable_aot,
        _ => false,
    }
}

/// The single bindings-generator version this pipeline supports: a hard
/// compatibility floor, not a range.
pub open spec fn spec_supported_bindgen_pin() -> Seq<char> {
    "0.2.61"@
}

/// Whether the configuration check passes: a binary-only target needs no
/// bindings generator at all; any other must pin exactly the supported
/// version.
pub open spec fn spec_crate_config_ok(cfg: BuildConfig) -> bool {
    cfg.bin_only || cfg.bindgen_version@ == spec_supported_bindgen_pin()
}

/// The pre-flight configuration check: for a target that needs bindings,
/// the pinned bindings-generator version must equal the single supported
/// one, and any other pin is a `VersionMismatch` naming both.
pub fn check_crate_config(cfg: &BuildConfig) -> (r: Result<(), Error>)
    ensures
        spec_crate_config_ok(*cfg) ==> r is Ok,
        !spec_crate_config_ok(*cfg) ==> (r matches Err(e) && e matches Error::VersionMismatch {
            expected,
            found,
        } && expected@ == spec_supported_bindgen_pin() && found@ == cfg.bindgen_version@),
{
    if cfg.bin_only {
        return Ok(());
    }
    if str_eq(cfg.bindgen_version.as_str(), "0.2.61") {
        Ok(())
    } else {
        Err(
            Error::VersionMismatch {
                expected: String::from_str("0.2.61"),
                found: cfg.bindgen_version.clone(),
            },
        )
    }
}

/// What the outside work of one executed step came to.
pub enum StepOutcome {
    /// The step's outside work succeeded.
    Success,
    /// The step's outside work failed with this error.
    Failure(Error),
}

/// How far a run got and where it stopped: the steps that were entered, and
/// the failing step together with the index of the outcome that felled it
/// (a negative index stands for the pipeline's own configuration check).
pub struct RunTrace {
    pub executed: Seq<Step>,
    pub failed: Option<(Step, int)>,
}

/// The run of the step sequence from position `i` on, with `ok` saying
/// which outside outcomes were successes and `ei` the next outcome to
/// consume. A skipped step is passed over without consuming an outcome; the
/// configuration check consumes none; every other step consumes one, and
/// the first failure ends the run. Outcomes beyond the end of `ok` count as
/// successes.
pub open spec fn spec_run_from(
    cfg: BuildConfig,
    steps: Seq<Step>,
    ok: Seq<bool>,
    i: int,
    ei: int,
) -> RunTrace
    decreases steps.len() - i,
{
    if i < 0 || i >= steps.len() {
        RunTrace { executed: Seq::empty(), failed: None }
    } else {
        let s = steps[i];
        if spec_step_skipped(cfg, s) {
            spec_run_from(cfg, steps, ok, i + 1, ei)
        } else if s is CheckCrateConfig {
            if spec_crate_config_ok(cfg) {
                let rest = spec_run_from(cfg, steps, ok, i + 1, ei);
                RunTrace { executed: seq![s] + rest.executed, failed: rest.failed }
            } else {
                RunTrace { executed: seq![s], failed: Some((s, -1)) }
            }
        } else {
            if 0 <= ei < ok.len() && !ok[ei] {
                RunTrace { executed: seq![s], failed: Some((s, ei)) }
            } else {
                let next_ei = if 0 <= ei < ok.len() {
                    ei + 1
                } else {
                    ei
                };
                let rest = spec_run_from(cfg, steps, ok, i + 1, next_ei);
                RunTrace { executed: seq![s] + rest.executed, failed: rest.failed }
            }
        }
    }
}

/// Which outcomes are successes.
pub open spec fn spec_events_ok(events: Seq<StepOutcome>) -> Seq<bool> {
    events.map_values(|e: StepOutcome| e is Success)
}

fn run_plan_from(cfg: &BuildConfig, steps: &Vec<Step>, events: &Vec<StepOutcome>, i: usize, ei: usize)
    -> (r: (Vec<Step>, Option<Error>))
    requires
        i <= steps@.len(),
        ei <= events@.len(),
    ensures
        ({
            let t = spec_run_from(*cfg, steps@, spec_events_ok(events@), i as int, ei as int);
            &&& r.0@ == t.executed
            &&& (t.failed is None <==> r.1 is None)
            &&& (t.failed matches Some((s, k)) ==> ((s is CheckCrateConfig ==> ({
                &&& r.1 matches Some(e)
                &&& e matches Error::VersionMismatch { expected, found }
                &&& expected@ == spec_supported_bindgen_pin()
                &&& found@ == cfg.bindgen_version@
            })) && (!(s is CheckCrateConfig) ==> ({
                &&& 0 <= k < events@.len()
                &&& events@[k] matches StepOutcome::Failure(e)
                &&& r.1 == Some(e)
            }))))
        }),
    decreases steps@.len() - i,
{
    if i >= steps.len() {
        return (Vec::new(), None);
    }
    let s = steps[i];
    if step_skipped(cfg, s) {
        return run_plan_from(cfg, steps, events, i + 1, ei);
    }
    if matches!(s, Step::CheckCrateConfig) {
        match check_crate_config(cfg) {
            Ok(()) => {
                let rest = run_plan_from(cfg, steps, events, i + 1, ei);
                let (mut ex, failed) = rest;
                ex.insert(0, s);
                proof {
                    let t = spec_run_from(
                        *cfg,
                        steps@,
                        spec_events_ok(events@),
                        i as int,
                        ei as int,
                    );
                    assert(ex@ =~= t.executed);
                }
                return (ex, failed);
            },
            Err(e) => {
                let mut ex: Vec<Step> = Vec::new();
                ex.push(s);
                return (ex, Some(e));
            },
        }
    }
    // An external step: consume the next outcome, if one is left.
    if ei < events.len() {
        match &events[ei] {
            StepOutcome::Failure(e) => {
                let mut ex: Vec<Step> = Vec::new();
                ex.push(s);
                return (ex, Some(e.clone()));
            },
            StepOutcome::Success => {
                let rest = run_plan_from(cfg, steps, events, i + 1, ei + 1);
                let (mut ex, failed) = rest;
                ex.insert(0, s);
                proof {
                    let t = spec_run_from(
                        *cfg,
                        steps@,
                        spec_events_ok(events@),
                        i as int,
                        ei as int,
                    );
                    assert(ex@ =~= t.executed);
                }
                return (ex, failed);
            },
        }
    } else {
        let rest = run_plan_from(cfg, steps, events, i + 1, ei);
        let (mut ex, failed) = rest;
        ex.insert(0, s);
        proof {
            let t = spec_run_from(*cfg, steps@, spec_events_ok(events@), i as int, ei as int);
            assert(ex@ =~= t.executed);
        }
        return (ex, failed);
    }
}

/// Runs the whole step sequence for this build against the outcomes of its
/// outside work, in order: the steps actually entered, and the error of the
/// first failure if there was one. The sequence is fixed; the first failure
/// aborts the rest; there is no retry and no rollback.
pub fn run_plan(cfg: &BuildConfig, events: &Vec<StepOutcome>) -> (r: (Vec<Step>, Option<Error>))
    ensures
        ({
            let t = spec_run_from(
                *cfg,
                spec_process_steps(cfg.mode),
                spec_events_ok(events@),
                0,
                0,
            );
            &&& r.0@ == t.executed
            &&& (t.failed is None <==> r.1 is None)
            &&& (t.failed matches Some((s, k)) ==> ((s is CheckCrateConfig ==> ({
                &&& r.1 matches Some(e)
                &&& e matches Error::VersionMismatch { expected, found }
                &&& expected@ == spec_supported_bindgen_pin()
                &&& found@ == cfg.bindgen_version@
            })) && (!(s is CheckCrateConfig) ==> ({
                &&& 0 <= k < events@.len()
                &&& events@[k] matches StepOutcome::Failure(e)
                &&& r.1 == Some(e)
            }))))
        }),
{
    let steps = get_process_steps(cfg.mode);
    run_plan_from(cfg, &steps, events, 0, 0)
}

/// What removing a directory came to; the caller reports it and this crate
/// decides what it means for the clean operation.
pub enum FsOutcome {
    /// The directory existed and was removed.
    Removed,
    /// The directory did not exist.
    NotFound,
}

/// The clean operation's verdict on one removal: a missing directory is a
/// failure of the clean — reported as an error, never as a crash.
pub fn interpret_removal(outcome: &FsOutcome) -> (r: Result<(), Error>)
    ensures
        outcome is Removed ==> r is Ok,
        outcome is NotFound ==> (r matches Err(e) && e is FsNotFound),
{
    match outcome {
        FsOutcome::Removed => Ok(()),
        FsOutcome::NotFound => Err(Error::FsNotFound),
    }
}

/// Everything required to configure and run the build command, threaded
/// through every step as its single mutable state.
pub struct Build {
    pub crate_path: String,
    pub crate_data: CrateInfo,
    pub scope: Option<String>,
    pub disable_dts: bool,
    pub profile: BuildProfile,
    pub mode: InstallMode,
    pub target: String,
    pub enable_aot: bool,
    pub enable_ext: bool,
    pub run_target: String,
    pub out_dir: String,
    pub out_name: Option<String>,
    pub bindgen: Option<ProvisionedTool>,
    pub cache: binary_install::Cache,
    pub extra_options: Vec<String>,
}

impl Build {
    /// Constructs a build from the given options, the resolved crate path,
    /// the loaded crate facts, and the binary cache. The profile request
    /// must be exclusive; the compilation target is fixed; the output
    /// directory resolves under the crate path; no tool is provisioned yet.
    pub fn try_from_opts(
        opts: BuildOptions,
        crate_path: String,
        crate_data: CrateInfo,
        cache: binary_install::Cache,
    ) -> (r: Result<Build, Error>)
        ensures
            (opts.dev && opts.release) || (opts.dev && opts.profiling) || (opts.release
                && opts.profiling) ==> (r matches Err(e) && e is Configuration),
            !opts.dev && !opts.profiling ==> (r matches Ok(b) && b.profile is Release),
            opts.dev && !opts.release && !opts.profiling ==> (r matches Ok(b) && b.profile
                is Dev),
            !opts.dev && !opts.release && opts.profiling ==> (r matches Ok(b) && b.profile
                is Profiling),
            r matches Ok(b) ==> ({
                &&& b.crate_path == crate_path
                &&& b.crate_data == crate_data
                &&& b.scope == opts.scope
                &&& b.disable_dts == opts.disable_dts
                &&& b.mode == opts.mode
                &&& b.target@ == "wasm32-wasi"@
                &&& b.enable_aot == opts.enable_aot
                &&& b.enable_ext == opts.enable_ext
                &&& b.run_target == opts.target
                &&& b.out_dir@ == crate_path@ + "/"@ + opts.out_dir@
                &&& b.out_name == opts.out_name
                &&& b.bindgen is None
                &&& b.extra_options == opts.extra_options
            }),
    {
        let profile = match select_profile(opts.dev, opts.release, opts.profiling) {
            Ok(p) => p,
            Err(e) => {
                return Err(e);
            },
        };
        let out_dir = crate_path.clone().concat("/").concat(opts.out_dir.as_str());
        Ok(
            Build {
                crate_path,
                crate_data,
                scope: opts.scope,
                disable_dts: opts.disable_dts,
                profile,
                mode: opts.mode,
                target: String::from_str("wasm32-wasi"),
                enable_aot: opts.enable_aot,
                enable_ext: opts.enable_ext,
                run_target: opts.target,
                out_dir,
                out_name: opts.out_name,
                bindgen: None,
                cache,
                extra_options: opts.extra_options,
            },
        )
    }

    /// Configures the binary cache used for this build; every other field
    /// stays as it was.
    pub fn set_cache(&mut self, cache: binary_install::Cache)
        ensures
            final(self).crate_path == old(self).crate_path,
            final(self).crate_data == old(self).crate_data,
            final(self).scope == old(self).scope,
            final(self).disable_dts == old(self).disable_dts,
            final(self).profile == old(self).profile,
            final(self).mode == old(self).mode,
            final(self).target == old(self).target,
            final(self).enable_aot == old(self).enable_aot,
            final(self).enable_ext == old(self).enable_ext,
            final(self).run_target == old(self).run_target,
            final(self).out_dir == old(self).out_dir,
            final(self).out_name == old(self).out_name,
            final(self).extra_options == old(self).extra_options,
    {
        self.cache = cache;
    }

    /// The facts the step skip conditions and the configuration check read,
    /// with the bindings-generator pin the caller read out of the target
    /// crate's lockfile.
    pub fn config(&self, bindgen_version: String) -> (r: BuildConfig)
        ensures
            r.bin_only == self.crate_data.bin_only,
            r.profile == self.profile,
            r.mode == self.mode,
            r.enable_aot == self.enable_aot,
            r.has_wasm_opt_args == (spec_configured_profile(self.crate_data, self.profile)
                .wasm_opt_args is Some),
            r.bindgen_version == bindgen_version,
    {
        let pc = self.crate_data.configured_profile(self.profile);
        BuildConfig {
            bin_only: self.crate_data.check_crate_type(),
            profile: self.profile,
            mode: self.mode,
            enable_aot: self.enable_aot,
            has_wasm_opt_args: pc.wasm_opt_args.is_some(),
            bindgen_version,
        }
    }
}

/// The steps a run enters when every outside outcome succeeds: the step
/// sequence from `i` on, with the skipped ones left out.
pub open spec fn spec_executed(cfg: BuildConfig, steps: Seq<Step>, i: int) -> Seq<Step>
    decreases steps.len() - i,
{
    if i < 0 || i >= steps.len() {
        Seq::empty()
    } else if spec_step_skipped(cfg, steps[i]) {
        spec_executed(cfg, steps, i + 1)
    } else {
        seq![steps[i]] + spec_executed(cfg, steps, i + 1)
    }
}

/// With the configuration check passing and every outside outcome a
/// success, the run reaches the end — nothing fails — and enters exactly
/// the non-skipped steps, in order.
pub proof fn lemma_run_all_success(
    cfg: BuildConfig,
    steps: Seq<Step>,
    ok: Seq<bool>,
    i: int,
    ei: int,
)
    requires
        spec_crate_config_ok(cfg),
        forall|k: int| 0 <= k < ok.len() ==> ok[k],
    ensures
        spec_run_from(cfg, steps, ok, i, ei).failed is None,
        spec_run_from(cfg, steps, ok, i, ei).executed == spec_executed(cfg, steps, i),
    decreases steps.len() - i,
{
    if 0 <= i < steps.len() {
        let s = steps[i];
        if spec_step_skipped(cfg, s) {
            lemma_run_all_success(cfg, steps, ok, i + 1, ei);
        } else if s is CheckCrateConfig {
            lemma_run_all_success(cfg, steps, ok, i + 1, ei);
        } else {
            let next_ei = if 0 <= ei < ok.len() {
                ei + 1
            } else {
                ei
            };
            lemma_run_all_success(cfg, steps, ok, i + 1, next_ei);
        }
    }
}

/// A step stands among the executed ones exactly when it stands in the
/// remaining sequence and its skip condition is off.
pub proof fn lemma_executed_contains(cfg: BuildConfig, steps: Seq<Step>, i: int, s: Step)
    requires
        0 <= i <= steps.len(),
    ensures
        spec_executed(cfg, steps, i).contains(s) <==> (exists|j: int|
            i <= j < steps.len() && steps[j] == s && !spec_step_skipped(cfg, s)),
    decreases steps.len() - i,
{
    let cur = spec_executed(cfg, steps, i);
    if i == steps.len() {
        assert(!cur.contains(s));
    } else {
        lemma_executed_contains(cfg, steps, i + 1, s);
        let rest = spec_executed(cfg, steps, i + 1);
        if cur.contains(s) {
            let idx = choose|idx: int| 0 <= idx < cur.len() && cur[idx] == s;
            if spec_step_skipped(cfg, steps[i]) {
                assert(rest.contains(s));
            } else {
                if idx == 0 {
                    assert(steps[i] == s && !spec_step_skipped(cfg, s));
                } else {
                    assert(cur == seq![steps[i]] + rest);
                    assert(cur[idx] == rest[idx - 1]);
                    assert(rest.contains(s));
                }
            }
            if rest.contains(s) {
                let j = choose|j: int|
                    i + 1 <= j < steps.len() && steps[j] == s && !spec_step_skipped(cfg, s);
                assert(i <= j < steps.len() && steps[j] == s && !spec_step_skipped(cfg, s));
            }
        }
        if exists|j: int| i <= j < steps.len() && steps[j] == s && !spec_step_skipped(cfg, s) {
            let j = choose|j: int|
                i <= j < steps.len() && steps[j] == s && !spec_step_skipped(cfg, s);
            if j == i {
                assert(cur == seq![steps[i]] + rest);
                assert(cur[0] == s);
                assert(cur.contains(s));
            } else {
                assert(i + 1 <= j < steps.len() && steps[j] == s && !spec_step_skipped(
                    cfg,
                    s,
                ));
                assert(rest.contains(s));
                if spec_step_skipped(cfg, steps[i]) {
                    assert(cur.contains(s));
                } else {
                    let idx = choose|idx: int| 0 <= idx < rest.len() && rest[idx] == s;
                    assert(cur == seq![steps[i]] + rest);
                    assert(cur[idx + 1] == s);
                    assert(cur.contains(s));
                }
            }
        }
    }
}

/// Pipeline step ordering is fixed by the target's shape: with the
/// configuration check passing and every outside outcome succeeding, a
/// run for a library-shaped target enters the bindings provisioning and
/// generation steps and never the direct artifact copy, while a run for a
/// binary-only target skips both of those and enters the copy instead —
/// and either run reaches the end.
pub proof fn lemma_pipeline_shape(cfg: BuildConfig, ok: Seq<bool>)
    requires
        spec_crate_config_ok(cfg),
        forall|k: int| 0 <= k < ok.len() ==> ok[k],
    ensures
        ({
            let t = spec_run_from(cfg, spec_process_steps(cfg.mode), ok, 0, 0);
            &&& t.failed is None
            &&& !cfg.bin_only ==> t.executed.contains(Step::InstallWasmBindgen)
                && t.executed.contains(Step::RunWasmBindgen) && !t.executed.contains(
                Step::CopyWasm,
            )
            &&& cfg.bin_only ==> !t.executed.contains(Step::InstallWasmBindgen)
                && !t.executed.contains(Step::RunWasmBindgen) && t.executed.contains(
                Step::CopyWasm,
            )
        }),
{
    let steps = spec_process_steps(cfg.mode);
    lemma_run_all_success(cfg, steps, ok, 0, 0);
    lemma_executed_contains(cfg, steps, 0, Step::InstallWasmBindgen);
    lemma_executed_contains(cfg, steps, 0, Step::RunWasmBindgen);
    lemma_executed_contains(cfg, steps, 0, Step::CopyWasm);
    if cfg.mode is Force {
        assert(steps[5] == Step::InstallWasmBindgen);
        assert(steps[6] == Step::RunWasmBindgen);
        assert(steps[4] == Step::CopyWasm);
    } else {
        assert(steps[8] == Step::InstallWasmBindgen);
        assert(steps[9] == Step::RunWasmBindgen);
        assert(steps[7] == Step::CopyWasm);
    }
}

} // verus!
