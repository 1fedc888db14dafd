//! The filesystem-backed binary cache: obtaining it, the trusted boundary to
//! the store itself, and a verified model of its fetch semantics.

use vstd::prelude::*;
use crate::error::Error;

verus! {

/// The identity-keyed store of downloaded tool archives, kept by the
/// `binary_install` crate on the filesystem.
#[verifier::external_type_specification]
#[verifier::external_body]
pub struct ExCache(binary_install::Cache);

/// A materialized installation: a directory holding one or more tool
/// binaries, kept by the `binary_install` crate.
#[verifier::external_type_specification]
#[verifier::external_body]
pub struct ExDownload(binary_install::Download);

/// Relies on binary_install::Cache::new: the per-user application cache
/// directory, created if absent; fails when no home directory can be
/// determined.
#[verifier::external_body]
fn cache_new(name: &str) -> (r: Result<binary_install::Cache, Error>)
{
    match binary_install::Cache::new(name) {
        Ok(c) => Ok(c),
        Err(_) => Err(Error::FsNotFound),
    }
}

/// Relies on binary_install::Cache::at: a cache rooted at the given
/// directory.
#[verifier::external_body]
fn cache_at(path: &str) -> (r: binary_install::Cache)
{
    binary_install::Cache::at(std::path::Path::new(path))
}

/// Relies on binary_install::Cache::join: the given name resolved under the
/// cache root.
#[verifier::external_body]
pub(crate) fn cache_join(cache: &binary_install::Cache, name: &str) -> (r: String)
{
    cache.join(std::path::Path::new(name)).to_string_lossy().into_owned()
}

/// Relies on binary_install::Cache::download: returns the identity-keyed
/// directory if it already exists; otherwise `None` when installing is not
/// permitted; otherwise downloads the archive, verifies that the expected
/// binaries are present, and atomically materializes it — so with
/// installing permitted the outcome is a directory or an error, never
/// `None`. That crate panics on a URL that names neither a gzipped tarball
/// nor a zip archive, so such a URL is not admitted here. Transport,
/// extraction and locking failures are all reported by that crate as one
/// opaque error kind, mapped here to `Network`.
#[verifier::external_body]
pub(crate) fn cache_download(
    cache: &binary_install::Cache,
    install_permitted: bool,
    name: &str,
    binaries: &Vec<String>,
    url: &str,
) -> (r: Result<Option<binary_install::Download>, Error>)
    requires
        crate::strutil::spec_str_ends_with(url@, ".tar.gz"@) || crate::strutil::spec_str_ends_with(
            url@,
            ".zip"@,
        ),
    ensures
        r matches Err(e) ==> e is Network,
        install_permitted ==> !(r matches Ok(None)),
{
    let refs: Vec<&str> = binaries.iter().map(|s| s.as_str()).collect();
    match cache.download(install_permitted, name, &refs, url) {
        Ok(d) => Ok(d),
        Err(_) => Err(Error::Network),
    }
}

/// Relies on binary_install::Download::at and std::path::Path::parent: the
/// installation rooted at the directory that holds the given binary.
#[verifier::external_body]
pub(crate) fn download_at_parent(path: &str) -> (r: binary_install::Download)
{
    let p = std::path::Path::new(path);
    match p.parent() {
        Some(dir) => binary_install::Download::at(dir),
        None => binary_install::Download::at(p),
    }
}

/// Relies on binary_install::Download::binary: the path of the named binary
/// inside the installation; `None` when it is absent or not executable.
#[verifier::external_body]
pub(crate) fn download_binary_path(d: &binary_install::Download, name: &str) -> (r: Option<
    String,
>)
{
    match d.binary(name) {
        Ok(p) => Some(p.to_string_lossy().into_owned()),
        Err(_) => None,
    }
}

/// Returns the binary cache: rooted at the overriding directory when the
/// caller passes one (taken from an environment variable upstream), and at
/// the per-user default location otherwise.
pub fn get_rustwasmc_cache(env_override: Option<&str>) -> (r: Result<
    binary_install::Cache,
    Error,
>)
    ensures
        r is Err ==> env_override is None,
{
    match env_override {
        Some(path) => Ok(cache_at(path)),
        None => cache_new("rustwasmc"),
    }
}

/// Model of the store's contents: the locations already materialized, keyed
/// by identity. Distinct identities coexist side by side and an entry is
/// never evicted.
pub struct CacheModel {
    pub entries: Map<Seq<char>, Seq<char>>,
}

/// What one fetch against the model returns.
pub enum FetchModelResult {
    /// The identity was already materialized at this location.
    Hit(Seq<char>),
    /// The identity is absent and installing is not permitted: a miss, not
    /// an error.
    NotInstalled,
    /// The identity was materialized at this (fresh) location.
    Installed(Seq<char>),
}

impl FetchModelResult {
    /// The location a successful fetch hands back.
    pub open spec fn loc(self) -> Seq<char> {
        match self {
            FetchModelResult::Hit(l) => l,
            FetchModelResult::Installed(l) => l,
            FetchModelResult::NotInstalled => Seq::empty(),
        }
    }
}

/// One fetch against the store: the new store, the result, and whether the
/// fetch went to the network. An existing identity is returned as-is; an
/// absent one is refused without network access when installing is not
/// permitted, and is otherwise downloaded and materialized at `fresh`.
pub open spec fn spec_fetch(
    m: CacheModel,
    identity: Seq<char>,
    install_permitted: bool,
    fresh: Seq<char>,
) -> (CacheModel, FetchModelResult, bool) {
    if m.entries.contains_key(identity) {
        (m, FetchModelResult::Hit(m.entries[identity]), false)
    } else if !install_permitted {
        (m, FetchModelResult::NotInstalled, false)
    } else {
        (
            CacheModel { entries: m.entries.insert(identity, fresh) },
            FetchModelResult::Installed(fresh),
            true,
        )
    }
}

/// Fetch is idempotent: after one permitted fetch of an identity, a second
/// permitted fetch of the same identity returns the same location, touches
/// the network no further, and leaves the store unchanged — the second call
/// is a pure hit.
pub proof fn lemma_fetch_idempotent(
    m: CacheModel,
    identity: Seq<char>,
    fresh1: Seq<char>,
    fresh2: Seq<char>,
)
    ensures
        ({
            let (m1, r1, net1) = spec_fetch(m, identity, true, fresh1);
            let (m2, r2, net2) = spec_fetch(m1, identity, true, fresh2);
            &&& !(r1 is NotInstalled) && !(r2 is NotInstalled)
            &&& r2.loc() == r1.loc()
            &&& net2 == false
            &&& m2 == m1
        }),
{
}

/// A forbidden fetch of an absent identity reports "not installed" — never a
/// network or archive failure — and performs no network access; a forbidden
/// fetch of a present identity is still a hit.
pub proof fn lemma_fetch_forbidden(m: CacheModel, identity: Seq<char>, fresh: Seq<char>)
    ensures
        ({
            let (m1, r1, net1) = spec_fetch(m, identity, false, fresh);
            &&& m1 == m
            &&& net1 == false
            &&& !m.entries.contains_key(identity) ==> r1 is NotInstalled
            &&& m.entries.contains_key(identity) ==> r1 == FetchModelResult::Hit(
                m.entries[identity],
            )
        }),
{
}

} // verus!
