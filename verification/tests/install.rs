//! Tool provisioning: version checks on reported output, the companion
//! mapping lookup, archive URLs, the source-install plan, and the behavior
//! when installs are forbidden.

use rustwasmc::cache::get_rustwasmc_cache;
use rustwasmc::error::Error;
use rustwasmc::install::{
    cargo_install, check_version, companion_from_doc, companion_from_entry,
    download_prebuilt_or_cargo_install, get_cli_version, prebuilt_url, resolve_from_docs,
    version_key, CargoInstallPlan, GlobalInstall, Tool,
};
use rustwasmc::platform::{Arch, Os, Platform};

fn linux_x64() -> Platform {
    Platform { os: Os::Linux, arch: Arch::X86_64 }
}

fn mac_arm() -> Platform {
    Platform { os: Os::MacOs, arch: Arch::Aarch64 }
}

#[test]
fn cli_version_is_the_second_token() {
    let out = get_cli_version(&Tool::WasmBindgen, "wasm-bindgen 0.2.61 (deadbeef)\n").unwrap();
    assert_eq!(out, "0.2.61");
    let trimmed = get_cli_version(&Tool::WasmBindgen, "  cargo-generate   0.5.0  ").unwrap();
    assert_eq!(trimmed, "0.5.0");
    match get_cli_version(&Tool::WasmBindgen, "garbage") {
        Err(Error::SubprocessFailure { tool }) => assert_eq!(tool, "wasm-bindgen"),
        other => panic!("expected a subprocess failure, got {:?}", other),
    }
}

#[test]
fn version_check_compares_the_reported_version() {
    assert_eq!(
        check_version(&Tool::WasmBindgen, "wasm-bindgen 0.2.61", "0.2.61").unwrap(),
        true
    );
    assert_eq!(
        check_version(&Tool::WasmBindgen, "wasm-bindgen 0.2.60", "0.2.61").unwrap(),
        false
    );
    assert!(check_version(&Tool::WasmBindgen, "", "0.2.61").is_err());
}

#[test]
fn mapping_lookup_names_the_missing_key() {
    let doc = "{\"0.2.61\": \"0.8.1\", \"0.2.60\": \"0.7.2\"}";
    assert_eq!(companion_from_doc(doc, "0.2.61").unwrap(), "0.8.1");
    assert_eq!(companion_from_doc(doc, "0.2.60").unwrap(), "0.7.2");
    match companion_from_doc(doc, "0.2.59") {
        Err(Error::UnsupportedVersion { requested }) => assert_eq!(requested, "0.2.59"),
        other => panic!("expected an unsupported version, got {:?}", other),
    }
    // A document that is not a mapping at all supports no pairing either.
    assert!(companion_from_doc("not json", "0.2.61").is_err());
    assert!(companion_from_doc("{\"0.2.61\": 7}", "0.2.61").is_err());
}

#[test]
fn entry_verdict_is_exact() {
    assert_eq!(companion_from_entry(Some("0.8.1".to_string()), "0.2.61").unwrap(), "0.8.1");
    match companion_from_entry(None, "9.9.9") {
        Err(Error::UnsupportedVersion { requested }) => assert_eq!(requested, "9.9.9"),
        other => panic!("expected an unsupported version, got {:?}", other),
    }
}

#[test]
fn resolver_prefers_the_primary_and_falls_back() {
    let primary = Some("{\"0.2.61\": \"0.8.1\"}".to_string());
    let mirror = Some("{\"0.2.61\": \"0.9.9\"}".to_string());
    assert_eq!(resolve_from_docs(&primary, &mirror, "0.2.61").unwrap(), "0.8.1");
    assert_eq!(resolve_from_docs(&None, &mirror, "0.2.61").unwrap(), "0.9.9");
    assert!(matches!(resolve_from_docs(&None, &None, "0.2.61"), Err(Error::Network)));
}

#[test]
fn version_keys_are_canonical() {
    assert_eq!(version_key(0, 2, 61), "0.2.61");
    assert_eq!(version_key(10, 0, 305), "10.0.305");
}

#[test]
fn archive_url_fails_fast_off_the_supported_platforms() {
    match prebuilt_url(&Tool::WasmBindgen, "0.2.61", &mac_arm()) {
        Err(Error::PlatformUnsupported) => {},
        other => panic!("expected platform unsupported, got {:?}", other),
    }
}

#[test]
fn archive_url_rejects_a_malformed_version() {
    match prebuilt_url(&Tool::WasmBindgen, "not-a-version", &linux_x64()) {
        Err(Error::UnsupportedVersion { requested }) => assert_eq!(requested, "not-a-version"),
        other => panic!("expected an unsupported version, got {:?}", other),
    }
}

#[test]
fn archive_url_normalizes_the_version_before_the_lookup() {
    // Build metadata is stripped from the mapping key. Without a reachable
    // mapping document the resolver reports a network failure; with one it
    // must look up the normalized key, not the raw input.
    match prebuilt_url(&Tool::WasmBindgen, "1.2.3+build.5", &linux_x64()) {
        Err(Error::Network) => {},
        Err(Error::UnsupportedVersion { requested }) => assert_eq!(requested, "1.2.3"),
        other => panic!("expected a resolver outcome, got {:?}", other),
    }
}

#[test]
fn forbidden_install_is_reported_as_such() {
    // No global install is passed in and the cache is empty: with installs
    // forbidden the provisioner must report InstallForbidden — never a
    // network or archive fault.
    let dir = tempfile::TempDir::new().unwrap();
    let cache = binary_install::Cache::at(dir.path());
    let r = download_prebuilt_or_cargo_install(
        &Tool::WasmBindgen,
        &cache,
        "0.2.61",
        false,
        &linux_x64(),
        &None,
    );
    match r {
        Err(Error::InstallForbidden { tool, version }) => {
            assert_eq!(tool, "wasm-bindgen");
            assert_eq!(version, "0.2.61");
        },
        other => panic!("expected install forbidden, got {:?}", other.map(|_| ())),
    }
}

#[test]
fn matching_global_install_wins() {
    let dir = tempfile::TempDir::new().unwrap();
    let cache = binary_install::Cache::at(dir.path());
    let global = Some(GlobalInstall {
        path: "/usr/local/bin/wasm-bindgen".to_string(),
        version_output: "wasm-bindgen 0.2.61".to_string(),
    });
    let p = download_prebuilt_or_cargo_install(
        &Tool::WasmBindgen,
        &cache,
        "0.2.61",
        false,
        &linux_x64(),
        &global,
    )
    .unwrap();
    assert_eq!(p.version, "0.2.61");
    assert_eq!(p.download.path(), std::path::Path::new("/usr/local/bin"));
}

#[test]
fn source_install_plan_reuses_and_refuses() {
    let dir = tempfile::TempDir::new().unwrap();
    let cache = binary_install::Cache::at(dir.path());
    match cargo_install(&Tool::WasmBindgen, &cache, "0.2.61", true, true, false) {
        Ok(CargoInstallPlan::UseExisting { destination }) => {
            assert!(destination.ends_with("wasm-bindgen-cargo-install-0.2.61"));
        },
        other => panic!("expected reuse of the existing install, got {:?}", other.map(|_| ())),
    }
    match cargo_install(&Tool::WasmBindgen, &cache, "0.2.61", false, false, false) {
        Err(Error::InstallForbidden { tool, version }) => {
            assert_eq!(tool, "wasm-bindgen");
            assert_eq!(version, "0.2.61");
        },
        other => panic!("expected install forbidden, got {:?}", other.map(|_| ())),
    }
    match cargo_install(&Tool::WasmBindgen, &cache, "0.2.61", true, false, true) {
        Ok(CargoInstallPlan::Run { destination, temp, args, binaries }) => {
            assert!(destination.ends_with("wasm-bindgen-cargo-install-0.2.61"));
            assert!(temp.ends_with(".wasm-bindgen-cargo-install-0.2.61"));
            assert_eq!(
                args,
                vec![
                    "install".to_string(),
                    "--force".to_string(),
                    "wasm-bindgen-cli".to_string(),
                    "--version".to_string(),
                    "0.2.61".to_string(),
                    "--root".to_string(),
                    temp.clone(),
                    "--quiet".to_string(),
                ]
            );
            assert_eq!(binaries, vec!["wasm-bindgen", "wasm-bindgen-test-runner"]);
        },
        other => panic!("expected a run plan, got {:?}", other.map(|_| ())),
    }
}

#[test]
fn cache_honors_the_override_directory() {
    let dir = tempfile::TempDir::new().unwrap();
    let s = dir.path().to_str().unwrap().to_string();
    let cache = get_rustwasmc_cache(Some(&s)).unwrap();
    assert_eq!(cache.destination, dir.path());
    assert!(get_rustwasmc_cache(None).is_ok());
}
