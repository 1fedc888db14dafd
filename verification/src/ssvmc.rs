//! Finding and invoking `ssvmc`, the ahead-of-time compiler, over the
//! module artifacts of the output directory.

use vstd::prelude::*;
use crate::cache::{cache_download, download_binary_path};
use crate::error::Error;
use crate::install::probe_path;
use crate::invoke::{aot_invocations, spec_invocations_match, spec_wasm_files, Invocation};
use crate::platform::Platform;
use crate::strutil::spec_str_ends_with;

verus! {

/// Possible results of `find_ssvmc`.
pub enum SsvmcOpt {
    /// Couldn't install `ssvmc` because downloads are forbidden.
    CannotInstall,
    /// The current platform doesn't support precompiled binaries.
    PlatformNotSupported,
    /// We found `ssvmc` at the specified path.
    Found(String),
}

fn ssvmc_binaries() -> (r: Vec<String>)
    ensures
        r.deep_view() == seq!["ssvmc"@],
{
    let mut v: Vec<String> = Vec::new();
    v.push("ssvmc".to_owned());
    proof {
        assert(v.deep_view() =~= seq!["ssvmc"@]);
    }
    v
}

/// Attempts to find `ssvmc` on the search path, or failing that downloads a
/// precompiled binary through the cache. A platform without a prebuilt
/// archive, like a forbidden download, is reported as a non-error option.
pub fn find_ssvmc(cache: &binary_install::Cache, install_permitted: bool, platform: &Platform)
    -> (r: Result<SsvmcOpt, Error>)
    ensures
        !(platform.os is Linux && platform.arch is X86_64) ==> (r matches Ok(o) && (o is Found
            || o is PlatformNotSupported)),
        r matches Err(e) ==> (e is Network || e is ArchiveIntegrity),
        platform.os is Linux && platform.arch is X86_64 ==> !(r matches Ok(o)
            && o is PlatformNotSupported),
        install_permitted ==> !(r matches Ok(o) && o is CannotInstall),
{
    match probe_path("ssvmc") {
        Some(p) => {
            return Ok(SsvmcOpt::Found(p));
        },
        None => {},
    }
    if !platform.has_aot_prebuilt() {
        return Ok(SsvmcOpt::PlatformNotSupported);
    }
    let url = "https://github.com/second-state/SSVM/releases/download/0.7.0/ssvm-0.7.0-linux-x64.tar.gz";
    proof {
        reveal_strlit("https://github.com/second-state/SSVM/releases/download/0.7.0/ssvm-0.7.0-linux-x64.tar.gz");
        reveal_strlit(".tar.gz");
        assert(url@.subrange(url@.len() - ".tar.gz"@.len(), url@.len() as int) =~= ".tar.gz"@);
    }
    let binaries = ssvmc_binaries();
    let dl = match cache_download(cache, false, "ssvmc", &binaries, url) {
        Err(e) => {
            return Err(e);
        },
        Ok(Some(dl)) => dl,
        Ok(None) => {
            if !install_permitted {
                return Ok(SsvmcOpt::CannotInstall);
            }
            match cache_download(cache, install_permitted, "ssvmc", &binaries, url) {
                Err(e) => {
                    return Err(e);
                },
                Ok(Some(dl)) => dl,
                Ok(None) => {
                    return Ok(SsvmcOpt::CannotInstall);
                },
            }
        },
    };
    match download_binary_path(&dl, "ssvmc") {
        Some(p) => Ok(SsvmcOpt::Found(p)),
        None => Err(Error::ArchiveIntegrity { tool: "ssvmc".to_owned() }),
    }
}

/// How the ahead-of-time step proceeds: a skip is a success with a message,
/// not a failure.
pub enum AotPlan {
    /// Skipped: downloads were not requested and the compiler is absent.
    SkipCannotInstall,
    /// Skipped: no precompiled compiler exists for this platform.
    SkipPlatformNotSupported,
    /// Run each invocation of the found compiler in order, stopping at the
    /// first failure.
    Compile { binary: String, invocations: Vec<Invocation> },
}

/// Plans the execution of `ssvmc` over the module artifacts in `files`,
/// provisioning it into `cache` if necessary. On a platform without a
/// prebuilt compiler the step degrades to a skip — never to a failure.
pub fn run(
    cache: &binary_install::Cache,
    files: &Vec<String>,
    install_permitted: bool,
    platform: &Platform,
) -> (r: Result<AotPlan, Error>)
    ensures
        !(platform.os is Linux && platform.arch is X86_64) ==> r is Ok,
        platform.os is Linux && platform.arch is X86_64 ==> !(r matches Ok(p)
            && p is SkipPlatformNotSupported),
        install_permitted ==> !(r matches Ok(p) && p is SkipCannotInstall),
        r matches Ok(p) ==> (p matches AotPlan::Compile { binary, invocations }
            ==> spec_invocations_match(
            invocations@,
            binary@,
            spec_wasm_files(files.deep_view()),
        )),
        r matches Err(e) ==> (e is Network || e is ArchiveIntegrity),
{
    let found = match find_ssvmc(cache, install_permitted, platform) {
        Err(e) => {
            return Err(e);
        },
        Ok(SsvmcOpt::CannotInstall) => {
            return Ok(AotPlan::SkipCannotInstall);
        },
        Ok(SsvmcOpt::PlatformNotSupported) => {
            return Ok(AotPlan::SkipPlatformNotSupported);
        },
        Ok(SsvmcOpt::Found(p)) => p,
    };
    let invocations = aot_invocations(found.as_str(), files);
    Ok(AotPlan::Compile { binary: found, invocations })
}

} // verus!
