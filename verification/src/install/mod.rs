//! Provisioning of prebuilt tool binaries: version checks, platform-specific
//! archive URLs, the companion-version resolver, and the cache-backed
//! download, with a planned source-level fallback install.

pub mod mode;
pub mod tool;

mod krate;

pub use self::mode::InstallMode;
pub use self::tool::Tool;

use vstd::prelude::*;
use vstd::string::StringExecFns;
use crate::cache::{cache_download, cache_join, download_at_parent, download_binary_path};
use crate::error::Error;
use crate::platform::{spec_target_triple, Platform};
use crate::strutil::{second_token, second_token_exec, spec_str_ends_with, str_eq, u64_to_dec, dec_str};
use self::tool::{spec_tool_crate_name, spec_tool_name};

verus! {

/// What a JSON document holds at a path of object keys: the string value
/// reached by looking each key up in turn, if the document parses as JSON
/// and the path ends at a string.
pub uninterp spec fn json_string_at_spec(doc: Seq<char>, path: Seq<Seq<char>>) -> Option<
    Seq<char>,
>;

/// The numeric (major, minor, patch) triple of a semantic version string, if
/// it is one.
pub uninterp spec fn semver_triple(s: Seq<char>) -> Option<(u64, u64, u64)>;

/// Relies on which::which: searches the system path for a binary of the
/// given name and returns its location; the result depends on the
/// environment, so nothing is promised of it.
#[verifier::external_body]
pub(crate) fn probe_path(name: &str) -> (r: Option<String>)
{
    match which::which(name) {
        Ok(p) => p.into_os_string().into_string().ok(),
        Err(_) => None,
    }
}

/// Relies on curl::easy::Easy: performs one blocking HTTP GET of the given
/// URL and returns the response body when the transfer succeeds and the body
/// is valid UTF-8; the result depends on the network, so nothing is promised
/// of it.
#[verifier::external_body]
fn http_get(url: &str) -> (r: Option<String>)
{
    let mut buf: Vec<u8> = Vec::new();
    let mut handle = curl::easy::Easy::new();
    if handle.url(url).is_err() {
        return None;
    }
    let mut transfer = handle.transfer();
    let sink = |d: &[u8]| { buf.extend_from_slice(d); Ok(d.len()) };
    if transfer.write_function(sink).is_err() {
        return None;
    }
    if transfer.perform().is_err() {
        return None;
    }
    drop(transfer);
    String::from_utf8(buf).ok()
}

/// Relies on serde_json::from_str and serde_json::Value::get: parses the
/// document and looks the path's keys up in turn; the result is a function
/// of the document and the path alone, named by `json_string_at_spec`.
#[verifier::external_body]
fn json_string_at(doc: &str, path: &Vec<String>) -> (r: Option<String>)
    ensures
        r.deep_view() == json_string_at_spec(doc@, path.deep_view()),
{
    let parsed: serde_json::Value = serde_json::from_str(doc).ok()?;
    let mut v: &serde_json::Value = &parsed;
    for key in path.iter() {
        v = v.get(key)?;
    }
    match v {
        serde_json::Value::String(s) => Some(s.clone()),
        _ => None,
    }
}

/// Relies on semver::Version::parse: the numeric triple of a semantic
/// version string; the result is a function of the string alone, named by
/// `semver_triple`.
#[verifier::external_body]
fn parse_version(s: &str) -> (r: Option<(u64, u64, u64)>)
    ensures
        r == semver_triple(s@),
{
    match semver::Version::parse(s) {
        Ok(v) => Some((v.major, v.minor, v.patch)),
        Err(_) => None,
    }
}

/// Looks a tool's canonical binary up on the search path; the caller then
/// queries that binary for its version.
pub fn probe_global(tool: &Tool) -> (r: Option<String>)
{
    probe_path(tool.name())
}

/// Turns the looked-up mapping entry for `pinned` into the resolver's
/// answer: a present entry is the companion version, an absent one is the
/// hard compatibility gate `UnsupportedVersion`, naming the missing key.
pub fn companion_from_entry(entry: Option<String>, pinned: &str) -> (r: Result<String, Error>)
    ensures
        entry matches Some(v) ==> (r matches Ok(u) && u@ == v@),
        entry is None ==> (r matches Err(e) && e matches Error::UnsupportedVersion {
            requested,
        } && requested@ == pinned@),
{
    match entry {
        Some(v) => Ok(v),
        None => Err(Error::UnsupportedVersion { requested: pinned.to_owned() }),
    }
}

/// Looks `pinned` up in a fetched companion-version mapping document.
pub fn companion_from_doc(doc: &str, pinned: &str) -> (r: Result<String, Error>)
    ensures
        (match json_string_at_spec(doc@, seq![pinned@]) {
            Some(v) => r matches Ok(u) && u@ == v,
            None => r matches Err(e) && e matches Error::UnsupportedVersion { requested }
                && requested@ == pinned@,
        }),
{
    let mut path: Vec<String> = Vec::new();
    path.push(pinned.to_owned());
    proof {
        assert(path.deep_view() =~= seq![pinned@]);
    }
    let entry = json_string_at(doc, &path);
    companion_from_entry(entry, pinned)
}

/// The resolver's decision given what the two fetch attempts returned: the
/// primary document wins when the primary fetch succeeded, the mirror
/// document stands in when only it succeeded, and both failing is a
/// `Network` error.
pub fn resolve_from_docs(primary: &Option<String>, mirror: &Option<String>, pinned: &str) -> (r:
    Result<String, Error>)
    ensures
        primary matches Some(d) ==> (match json_string_at_spec(d@, seq![pinned@]) {
            Some(v) => r matches Ok(u) && u@ == v,
            None => r matches Err(e) && e matches Error::UnsupportedVersion { requested }
                && requested@ == pinned@,
        }),
        primary is None ==> (mirror matches Some(d) ==> match json_string_at_spec(
            d@,
            seq![pinned@],
        ) {
            Some(v) => r matches Ok(u) && u@ == v,
            None => r matches Err(e) && e matches Error::UnsupportedVersion { requested }
                && requested@ == pinned@,
        }),
        primary is None && mirror is None ==> (r matches Err(e) && e is Network),
{
    match primary {
        Some(doc) => companion_from_doc(doc.as_str(), pinned),
        None => match mirror {
            Some(doc) => companion_from_doc(doc.as_str(), pinned),
            None => Err(Error::Network),
        },
    }
}

/// Resolves the companion runtime version for a pinned bindings-generator
/// version from the published mapping document, falling back to the mirror
/// when the primary fetch fails. The mapping is re-fetched on every call.
pub fn get_ssvm_ver(pinned: &str) -> (r: Result<String, Error>)
    ensures
        r matches Ok(u) ==> (exists|doc: Seq<char>|
            json_string_at_spec(doc, seq![pinned@]) == Some(u@)),
        r matches Err(e) ==> (e is Network || e is UnsupportedVersion),
        r matches Err(e) ==> (e matches Error::UnsupportedVersion { requested }
            ==> requested@ == pinned@),
{
    let primary = http_get(
        "https://raw.githubusercontent.com/second-state/wasm-bindgen/ssvm/bindgen-ssvm-vers.json",
    );
    let mirror = if primary.is_none() {
        http_get("https://wasm-bindgen-1302969175.cos.ap-beijing.myqcloud.com/bindgen-ssvm-vers.json")
    } else {
        None
    };
    resolve_from_docs(&primary, &mirror, pinned)
}

/// The canonical `major.minor.patch` rendering of a version triple: the key
/// under which the companion mapping publishes it.
pub open spec fn canonical_triple(major: u64, minor: u64, patch: u64) -> Seq<char> {
    dec_str(major as nat) + seq!['.'] + dec_str(minor as nat) + seq!['.'] + dec_str(
        patch as nat,
    )
}

/// Renders a version triple as its canonical `major.minor.patch` key.
pub fn version_key(major: u64, minor: u64, patch: u64) -> (s: String)
    ensures
        s@ == canonical_triple(major, minor, patch),
{
    proof {
        reveal_strlit(".");
        assert("."@ =~= seq!['.']);
    }
    let s = u64_to_dec(major);
    let s = s.concat(".");
    let minor_s = u64_to_dec(minor);
    let s = s.concat(minor_s.as_str());
    let s = s.concat(".");
    let patch_s = u64_to_dec(patch);
    let s = s.concat(patch_s.as_str());
    proof {
        assert(s@ =~= canonical_triple(major, minor, patch));
    }
    s
}

/// The published URL of the prebuilt bindings-generator archive for a
/// resolved companion version and a target triple.
pub open spec fn spec_bindgen_url(ver: Seq<char>, triple: Seq<char>) -> Seq<char> {
    "https://github.com/second-state/wasm-bindgen/releases/download/"@ + ver + "/wasm-bindgen-"@
        + ver + "-"@ + triple + ".tar.gz"@
}

fn bindgen_url(ver: &str, triple: &str) -> (r: String)
    ensures
        r@ == spec_bindgen_url(ver@, triple@),
{
    let s = String::from_str("https://github.com/second-state/wasm-bindgen/releases/download/");
    let s = s.concat(ver);
    let s = s.concat("/wasm-bindgen-");
    let s = s.concat(ver);
    let s = s.concat("-");
    let s = s.concat(triple);
    let s = s.concat(".tar.gz");
    proof {
        assert(s@ =~= spec_bindgen_url(ver@, triple@));
    }
    s
}

/// The published URL of the prebuilt scaffolding-tool archive for a version
/// and a target triple.
pub open spec fn spec_cargo_generate_url(ver: Seq<char>, triple: Seq<char>) -> Seq<char> {
    "https://github.com/ashleygwilliams/cargo-generate/releases/download/v"@ + ver
        + "/cargo-generate-v"@ + ver + "-"@ + triple + ".tar.gz"@
}

fn cargo_generate_url(ver: &str, triple: &str) -> (r: String)
    ensures
        r@ == spec_cargo_generate_url(ver@, triple@),
{
    let s = String::from_str(
        "https://github.com/ashleygwilliams/cargo-generate/releases/download/v",
    );
    let s = s.concat(ver);
    let s = s.concat("/cargo-generate-v");
    let s = s.concat(ver);
    let s = s.concat("-");
    let s = s.concat(triple);
    let s = s.concat(".tar.gz");
    proof {
        assert(s@ =~= spec_cargo_generate_url(ver@, triple@));
    }
    s
}

/// The binary names a prebuilt archive of `tool` is expected to contain.
pub open spec fn spec_expected_binaries(t: Tool) -> Seq<Seq<char>> {
    seq![spec_tool_name(t)]
}

fn expected_binaries(tool: &Tool) -> (r: Vec<String>)
    ensures
        r.deep_view() == spec_expected_binaries(*tool),
{
    let mut v: Vec<String> = Vec::new();
    v.push(tool.name().to_owned());
    proof {
        assert(v.deep_view() =~= spec_expected_binaries(*tool));
    }
    v
}

fn install_forbidden(tool: &Tool, version: &str) -> (e: Error)
    ensures
        e matches Error::InstallForbidden { tool: t, version: v } && t@ == spec_tool_name(*tool)
            && v@ == version@,
{
    Error::InstallForbidden { tool: tool.name().to_owned(), version: version.to_owned() }
}

/// Computes the URL of the precompiled archive of `tool` at `version` for
/// the host platform: selects the target triple, and resolves the version
/// the archive is published under (the companion mapping for the bindings
/// generator, the registry's newest version for the scaffolding tool).
pub fn prebuilt_url(tool: &Tool, version: &str, platform: &Platform) -> (r: Result<String, Error>)
    ensures
        spec_target_triple(*platform) is None ==> (r matches Err(e) && e is PlatformUnsupported),
        *tool is WasmBindgen ==> (r matches Ok(u) ==> (semver_triple(version@) matches Some(t)
            && spec_target_triple(*platform) matches Some(tr) && exists|doc: Seq<char>, ver: Seq<char>|
            json_string_at_spec(doc, seq![canonical_triple(t.0, t.1, t.2)]) == Some(ver) && u@
            == spec_bindgen_url(ver, tr))),
        *tool is WasmBindgen && spec_target_triple(*platform) is Some && semver_triple(version@)
            is None ==> (r matches Err(e) && e matches Error::UnsupportedVersion { requested }
            && requested@ == version@),
        *tool is CargoGenerate ==> (r matches Ok(u) ==> (spec_target_triple(*platform)
            matches Some(tr) && exists|doc: Seq<char>, ver: Seq<char>| json_string_at_spec(
            doc,
            seq!["crate"@, "max_version"@],
        ) == Some(ver) && u@ == spec_cargo_generate_url(ver, tr))),
        r matches Err(e) ==> (e is PlatformUnsupported || e is UnsupportedVersion
            || e is Network),
        r matches Err(e) ==> (e is PlatformUnsupported ==> spec_target_triple(*platform)
            is None),
        r matches Ok(u) ==> spec_str_ends_with(u@, ".tar.gz"@),
{
    let triple = match platform.target_triple() {
        Ok(t) => t,
        Err(e) => { return Err(e); },
    };
    match tool {
        Tool::WasmBindgen => {
            let t = match parse_version(version) {
                Some(t) => t,
                None => { return Err(Error::UnsupportedVersion { requested: version.to_owned() }); },
            };
            let key = version_key(t.0, t.1, t.2);
            let ver = match get_ssvm_ver(key.as_str()) {
                Ok(v) => v,
                Err(e) => { return Err(e); },
            };
            let url = bindgen_url(ver.as_str(), triple);
            proof {
                let doc0 = choose|doc: Seq<char>| json_string_at_spec(doc, seq![key@]) == Some(
                    ver@,
                );
                assert(json_string_at_spec(doc0, seq![canonical_triple(t.0, t.1, t.2)]) == Some(
                    ver@,
                ) && url@ == spec_bindgen_url(ver@, triple@));
                assert(url@.subrange(url@.len() - ".tar.gz"@.len(), url@.len() as int)
                    =~= ".tar.gz"@);
            }
            Ok(url)
        },
        Tool::CargoGenerate => {
            let k = match krate::Krate::new(tool) {
                Ok(k) => k,
                Err(e) => { return Err(e); },
            };
            let url = cargo_generate_url(k.max_version.as_str(), triple);
            proof {
                let doc0 = choose|doc: Seq<char>| json_string_at_spec(
                    doc,
                    seq!["crate"@, "max_version"@],
                ) == Some(k.max_version@);
                assert(json_string_at_spec(doc0, seq!["crate"@, "max_version"@]) == Some(
                    k.max_version@,
                ) && url@ == spec_cargo_generate_url(k.max_version@, triple@));
                assert(url@.subrange(url@.len() - ".tar.gz"@.len(), url@.len() as int)
                    =~= ".tar.gz"@);
            }
            Ok(url)
        },
    }
}

/// Downloads a precompiled copy of `tool` through the cache, if available,
/// and hands back only an installation that holds the tool's binary: one
/// that does not — a damaged or mislaid archive — is an `ArchiveIntegrity`
/// error, never a success. When installing is not permitted, every failure
/// — a missing cache entry foremost — is reported as `InstallForbidden`,
/// never as a network or archive fault.
pub fn download_prebuilt(
    tool: &Tool,
    cache: &binary_install::Cache,
    version: &str,
    install_permitted: bool,
    platform: &Platform,
) -> (r: Result<binary_install::Download, Error>)
    ensures
        !install_permitted ==> (r matches Err(e) ==> (e matches Error::InstallForbidden {
            tool: t,
            version: v,
        } && t@ == spec_tool_name(*tool) && v@ == version@)),
        r matches Err(e) ==> (e is InstallForbidden || e is PlatformUnsupported
            || e is UnsupportedVersion || e is Network || e is ArchiveIntegrity),
        install_permitted && spec_target_triple(*platform) is None ==> (r matches Err(e) && e
            is PlatformUnsupported),
        install_permitted ==> !(r matches Err(e) && e is InstallForbidden),
        r matches Err(e) ==> (e matches Error::ArchiveIntegrity { tool: t } ==> t@
            == spec_tool_name(*tool)),
{
    let url = match prebuilt_url(tool, version, platform) {
        Ok(u) => u,
        Err(e) => {
            if !install_permitted {
                return Err(install_forbidden(tool, version));
            }
            return Err(e);
        },
    };
    let binaries = expected_binaries(tool);
    let dl = match cache_download(cache, install_permitted, tool.name(), &binaries, url.as_str()) {
        Ok(Some(d)) => d,
        Ok(None) => {
            return Err(install_forbidden(tool, version));
        },
        Err(e) => {
            if !install_permitted {
                return Err(install_forbidden(tool, version));
            }
            return Err(e);
        },
    };
    match download_binary_path(&dl, tool.name()) {
        Some(_) => Ok(dl),
        None => {
            if !install_permitted {
                Err(install_forbidden(tool, version))
            } else {
                Err(Error::ArchiveIntegrity { tool: tool.name().to_owned() })
            }
        },
    }
}

/// Reads the version a tool reported for itself: the second
/// whitespace-separated token of its `--version` output.
pub fn get_cli_version(tool: &Tool, version_output: &str) -> (r: Result<String, Error>)
    ensures
        (match second_token(version_output@) {
            Some(v) => r matches Ok(s) && s@ == v,
            None => r matches Err(e) && e matches Error::SubprocessFailure { tool: t } && t@
                == spec_tool_name(*tool),
        }),
{
    match second_token_exec(version_output) {
        Some(s) => Ok(s),
        None => Err(Error::SubprocessFailure { tool: tool.name().to_owned() }),
    }
}

/// Checks whether an installed tool satisfies the required version:
/// compares the version it reported against the expected one, resolving the
/// sentinel "latest" through the registry first — the word "latest" itself
/// is never what the reported version is compared against.
pub fn check_version(tool: &Tool, version_output: &str, expected_version: &str) -> (r: Result<
    bool,
    Error,
>)
    ensures
        expected_version@ != "latest"@ ==> (match second_token(version_output@) {
            Some(v) => r matches Ok(b) && b == (v == expected_version@),
            None => r is Err,
        }),
        r matches Ok(b) ==> second_token(version_output@) is Some,
        expected_version@ == "latest"@ ==> (r matches Ok(b) ==> (second_token(version_output@)
            matches Some(tok) && exists|doc: Seq<char>, m: Seq<char>|
            json_string_at_spec(doc, seq!["crate"@, "max_version"@]) == Some(m) && b == (tok
            == m))),
{
    if str_eq(expected_version, "latest") {
        let k = match krate::Krate::new(tool) {
            Ok(k) => k,
            Err(e) => { return Err(e); },
        };
        match get_cli_version(tool, version_output) {
            Ok(v) => {
                let b = str_eq(v.as_str(), k.max_version.as_str());
                proof {
                    let doc0 = choose|doc: Seq<char>|
                        json_string_at_spec(doc, seq!["crate"@, "max_version"@]) == Some(
                            k.max_version@,
                        );
                    assert(json_string_at_spec(doc0, seq!["crate"@, "max_version"@]) == Some(
                        k.max_version@,
                    ) && b == (v@ == k.max_version@));
                    assert(exists|doc: Seq<char>, m: Seq<char>|
                        json_string_at_spec(doc, seq!["crate"@, "max_version"@]) == Some(m)
                            && b == (v@ == m));
                }
                Ok(b)
            },
            Err(e) => Err(e),
        }
    } else {
        match get_cli_version(tool, version_output) {
            Ok(v) => Ok(str_eq(v.as_str(), expected_version)),
            Err(e) => Err(e),
        }
    }
}

/// A binary found on the search path, together with what it printed for
/// `--version`; the caller runs the query and hands both in.
pub struct GlobalInstall {
    pub path: String,
    pub version_output: String,
}

/// A usable local installation of a tool, with the version it provides.
pub struct ProvisionedTool {
    /// Where the tool's binaries live.
    pub download: binary_install::Download,
    /// The version this installation provides: for a global binary the
    /// version it reported, for a download the version requested.
    pub version: String,
}

/// Provisions `tool` at `version`. A global installation of the right
/// version wins and bypasses the cache; a global binary of the wrong
/// version falls through to the prebuilt download, not to a failure. An
/// exact version spec is honored: a provisioned tool always carries it.
pub fn download_prebuilt_or_cargo_install(
    tool: &Tool,
    cache: &binary_install::Cache,
    version: &str,
    install_permitted: bool,
    platform: &Platform,
    global: &Option<GlobalInstall>,
) -> (r: Result<ProvisionedTool, Error>)
    ensures
        version@ != "latest"@ ==> (r matches Ok(p) ==> p.version@ == version@),
        global is None ==> (!install_permitted ==> (r matches Err(e) ==> (e
            matches Error::InstallForbidden { tool: t, version: v } && t@ == spec_tool_name(
            *tool,
        ) && v@ == version@))),
        version@ != "latest"@ ==> (global matches Some(g) ==> (second_token(
            g.version_output@,
        ) == Some(version@) ==> r is Ok)),
        version@ != "latest"@ ==> (global matches Some(g) ==> ((second_token(
            g.version_output@,
        ) matches Some(tok) && tok != version@) ==> (r is Ok || (r matches Err(e) && (e
            is InstallForbidden || e is PlatformUnsupported || e is UnsupportedVersion
            || e is Network || e is ArchiveIntegrity))))),
{
    match global {
        Some(g) => {
            match check_version(tool, g.version_output.as_str(), version) {
                Err(e) => { return Err(e); },
                Ok(true) => {
                    let d = download_at_parent(g.path.as_str());
                    let reported = match get_cli_version(tool, g.version_output.as_str()) {
                        Ok(v) => v,
                        Err(e) => { return Err(e); },
                    };
                    return Ok(ProvisionedTool { download: d, version: reported });
                },
                Ok(false) => {},
            }
        },
        None => {},
    }
    match download_prebuilt(tool, cache, version, install_permitted, platform) {
        Ok(d) => Ok(ProvisionedTool { download: d, version: version.to_owned() }),
        Err(e) => Err(e),
    }
}

/// The arguments of the source-level install command: install the tool's
/// crate at the exact version into the temporary root, quietly when asked.
pub open spec fn spec_cargo_install_args(
    t: Tool,
    version: Seq<char>,
    root: Seq<char>,
    quiet: bool,
) -> Seq<Seq<char>> {
    let base = seq![
        "install"@,
        "--force"@,
        spec_tool_crate_name(t),
        "--version"@,
        version,
        "--root"@,
        root,
    ];
    if quiet {
        base + seq!["--quiet"@]
    } else {
        base
    }
}

/// The binaries a source-level install of `t` produces under `bin/`.
pub open spec fn spec_install_binaries(t: Tool) -> Seq<Seq<char>> {
    match t {
        Tool::WasmBindgen => seq!["wasm-bindgen"@, "wasm-bindgen-test-runner"@],
        Tool::CargoGenerate => seq!["cargo-generate"@],
    }
}

/// How a source-level install of a tool proceeds.
pub enum CargoInstallPlan {
    /// The identity-keyed destination already exists in the cache: use it
    /// as-is, with no work.
    UseExisting { destination: String },
    /// Build from source: run the install command with `args`, move each of
    /// `binaries` from `<temp>/bin` up to `<temp>`, then atomically rename
    /// `temp` to `destination`.
    Run { destination: String, temp: String, args: Vec<String>, binaries: Vec<String> },
}

/// Lays out the source-level fallback install of `tool` into the cache's
/// identity-keyed location: a plan for the caller to execute, since the
/// build itself runs outside this crate. An existing destination is reused;
/// a missing one with installs forbidden is `InstallForbidden`.
pub fn cargo_install(
    tool: &Tool,
    cache: &binary_install::Cache,
    version: &str,
    install_permitted: bool,
    destination_exists: bool,
    quiet: bool,
) -> (r: Result<CargoInstallPlan, Error>)
    ensures
        destination_exists ==> (r matches Ok(p) && p is UseExisting),
        !destination_exists && !install_permitted ==> (r matches Err(e) && e
            matches Error::InstallForbidden { tool: t, version: v } && t@ == spec_tool_name(
            *tool,
        ) && v@ == version@),
        !destination_exists && install_permitted ==> (r matches Ok(p) && p is Run),
        r matches Ok(p) ==> (p matches CargoInstallPlan::Run {
            destination,
            temp,
            args,
            binaries,
        } ==> args.deep_view() == spec_cargo_install_args(*tool, version@, temp@, quiet)
            && binaries.deep_view() == spec_install_binaries(*tool)),
{
    let dirname = tool.name().to_owned().concat("-cargo-install-").concat(version);
    let destination = cache_join(cache, dirname.as_str());
    if destination_exists {
        return Ok(CargoInstallPlan::UseExisting { destination });
    }
    if !install_permitted {
        return Err(install_forbidden(tool, version));
    }
    let hidden = String::from_str(".").concat(dirname.as_str());
    let temp = cache_join(cache, hidden.as_str());
    let mut args: Vec<String> = Vec::new();
    args.push(String::from_str("install"));
    args.push(String::from_str("--force"));
    args.push(tool.crate_name().to_owned());
    args.push(String::from_str("--version"));
    args.push(version.to_owned());
    args.push(String::from_str("--root"));
    args.push(temp.clone());
    if quiet {
        args.push(String::from_str("--quiet"));
    }
    let mut binaries: Vec<String> = Vec::new();
    match tool {
        Tool::WasmBindgen => {
            binaries.push(String::from_str("wasm-bindgen"));
            binaries.push(String::from_str("wasm-bindgen-test-runner"));
        },
        Tool::CargoGenerate => {
            binaries.push(String::from_str("cargo-generate"));
        },
    }
    proof {
        assert(args.deep_view() =~= spec_cargo_install_args(*tool, version@, temp@, quiet));
        assert(binaries.deep_view() =~= spec_install_binaries(*tool));
    }
    Ok(CargoInstallPlan::Run { destination, temp, args, binaries })
}

} // verus!
