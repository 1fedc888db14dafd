//! Configuration construction, the platform model, the string utilities,
//! and the plain data types of the crate's surface.

use rustwasmc::command::build::{Build, BuildOptions, BuildProfile};
use rustwasmc::command::Command;
use rustwasmc::error::Error;
use rustwasmc::install::InstallMode;
use rustwasmc::manifest::npm::repository::Repository;
use rustwasmc::manifest::npm::{CommonJSPackage, NpmPackage};
use rustwasmc::manifest::{CrateInfo, ProfileConfig};
use rustwasmc::platform::{Arch, Os, Platform};
use rustwasmc::strutil::{second_token_exec, str_ends_with, str_eq, u64_to_dec};

fn plain_profile(wasm_opt: Option<Vec<String>>) -> ProfileConfig {
    ProfileConfig {
        wasm_bindgen_debug_js_glue: false,
        wasm_bindgen_demangle_name_section: true,
        wasm_bindgen_dwarf_debug_info: false,
        wasm_opt_args: wasm_opt,
    }
}

fn demo_crate() -> CrateInfo {
    CrateInfo {
        crate_name: vec!["demo".to_string()],
        target_directory: "/proj/target".to_string(),
        bin_only: false,
        dev: plain_profile(None),
        release: plain_profile(Some(vec!["-O2".to_string()])),
        profiling: plain_profile(None),
    }
}

#[test]
fn mode_parsing_and_permissions() {
    assert_eq!(InstallMode::from_name("force"), Some(InstallMode::Force));
    assert_eq!(InstallMode::from_name("normal"), Some(InstallMode::Normal));
    assert_eq!(InstallMode::from_name("no-install"), Some(InstallMode::NoInstall));
    assert_eq!(InstallMode::from_name("anything"), None);
    assert!(InstallMode::Force.install_permitted());
    assert!(InstallMode::Normal.install_permitted());
    assert!(!InstallMode::NoInstall.install_permitted());
    assert_eq!(InstallMode::default(), InstallMode::Normal);
}

#[test]
fn default_options_build_a_release_package() {
    let opts = BuildOptions::default();
    assert!(opts.path.is_none());
    assert_eq!(opts.target, "ssvm");
    assert_eq!(opts.out_dir, "pkg");
    assert!(opts.disable_dts);
    assert!(!opts.dev && !opts.release && !opts.profiling);
}

#[test]
fn build_construction_resolves_the_output_directory() {
    let dir = tempfile::TempDir::new().unwrap();
    let cache = binary_install::Cache::at(dir.path());
    let b = Build::try_from_opts(
        BuildOptions::default(),
        "/work/demo".to_string(),
        demo_crate(),
        cache,
    )
    .unwrap();
    assert_eq!(b.out_dir, "/work/demo/pkg");
    assert_eq!(b.target, "wasm32-wasi");
    assert_eq!(b.run_target, "ssvm");
    assert!(matches!(b.profile, BuildProfile::Release));
    assert!(b.bindgen.is_none());
    let cfg = b.config("0.2.61".to_string());
    assert!(!cfg.bin_only);
    assert!(cfg.has_wasm_opt_args);
    assert_eq!(cfg.bindgen_version, "0.2.61");
}

#[test]
fn conflicting_profile_requests_fail_construction() {
    let dir = tempfile::TempDir::new().unwrap();
    let cache = binary_install::Cache::at(dir.path());
    let mut opts = BuildOptions::default();
    opts.release = true;
    opts.profiling = true;
    match Build::try_from_opts(opts, "/work/demo".to_string(), demo_crate(), cache) {
        Err(Error::Configuration) => {},
        other => panic!("expected a configuration error, got {:?}", other.map(|_| ())),
    }
}

#[test]
fn target_triples_cover_the_published_archives() {
    let t = |os: Os, arch: Arch| Platform { os, arch }.target_triple();
    assert_eq!(t(Os::Linux, Arch::X86_64).unwrap(), "x86_64-unknown-linux-gnu");
    assert_eq!(t(Os::MacOs, Arch::X86_64).unwrap(), "x86_64-apple-darwin");
    assert_eq!(t(Os::Windows, Arch::X86_64).unwrap(), "x86_64-pc-windows-msvc");
    assert_eq!(t(Os::Linux, Arch::Aarch64).unwrap(), "aarch64-unknown-linux-gnu");
    assert!(matches!(t(Os::Windows, Arch::Aarch64), Err(Error::PlatformUnsupported)));
    assert!(matches!(t(Os::MacOs, Arch::Aarch64), Err(Error::PlatformUnsupported)));
    assert!(Platform { os: Os::Linux, arch: Arch::X86_64 }.has_aot_prebuilt());
    assert!(!Platform { os: Os::MacOs, arch: Arch::X86_64 }.has_aot_prebuilt());
}

#[test]
fn string_utilities_behave() {
    assert!(str_eq("abc", "abc"));
    assert!(!str_eq("abc", "abd"));
    assert!(!str_eq("abc", "ab"));
    assert!(str_ends_with("demo.wasm", ".wasm"));
    assert!(!str_ends_with("wasm", ".wasm"));
    assert_eq!(u64_to_dec(0), "0");
    assert_eq!(u64_to_dec(10505), "10505");
    assert_eq!(second_token_exec("wasm-bindgen 0.2.61 (x)"), Some("0.2.61".to_string()));
    // Tokens split on any Unicode whitespace, as the version output may use.
    assert_eq!(second_token_exec("tool\u{00A0}1.2.3"), Some("1.2.3".to_string()));
    assert_eq!(second_token_exec("tool\u{2003}2.0.0 rest"), Some("2.0.0".to_string()));
    assert_eq!(second_token_exec("one"), None);
    assert_eq!(second_token_exec(""), None);
}

#[test]
fn error_kinds_are_distinguishable() {
    let forbidden = Error::InstallForbidden {
        tool: "wasm-bindgen".to_string(),
        version: "0.2.61".to_string(),
    };
    assert!(forbidden.is_install_forbidden());
    assert!(!Error::Network.is_install_forbidden());
    assert!(!Error::FsNotFound.is_install_forbidden());
    let copy = forbidden.clone();
    assert!(copy.is_install_forbidden());
}

#[test]
fn package_descriptor_values_assemble() {
    let pkg = CommonJSPackage {
        name: "demo".to_string(),
        collaborators: vec!["someone".to_string()],
        description: None,
        version: "0.1.0".to_string(),
        license: Some("MIT".to_string()),
        repository: Some(Repository {
            ty: "git".to_string(),
            url: "https://example.invalid/demo.git".to_string(),
        }),
        files: vec!["demo.wasm".to_string()],
        main: "demo.js".to_string(),
        types: None,
    };
    let wrapped = NpmPackage::CommonJSPackage(pkg);
    match wrapped {
        NpmPackage::CommonJSPackage(p) => {
            assert_eq!(p.name, "demo");
            assert_eq!(p.files, vec!["demo.wasm"]);
        },
    }
}

#[test]
fn commands_carry_their_options() {
    let cmd = Command::Build(BuildOptions::default());
    match cmd {
        Command::Build(opts) => assert_eq!(opts.out_dir, "pkg"),
        Command::Clean {} => panic!("expected the build command"),
    }
    assert!(matches!(Command::Clean {}, Command::Clean {}));
}
