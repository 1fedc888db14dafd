//! The error kinds that a pipeline run can end with.

use vstd::prelude::*;

verus! {

/// Why a build, a provisioning attempt, or a clean failed.
///
/// Every pipeline step returns a `Result` with this error type; the first
/// failure aborts the remaining sequence.
#[derive(Debug)]
pub enum Error {
    /// A declared tool version does not equal the single supported pin.
    VersionMismatch { expected: String, found: String },
    /// No prebuilt archive of the tool exists for the host platform.
    PlatformUnsupported,
    /// A required tool is absent and the active mode disallows installing it.
    InstallForbidden { tool: String, version: String },
    /// Transport failure fetching the version mapping or an archive, after
    /// the mirror fallback was exhausted.
    Network,
    /// An invoked tool exited with a non-zero status, or its output could not
    /// be understood; records which tool.
    SubprocessFailure { tool: String },
    /// A downloaded archive does not contain an expected binary name.
    ArchiveIntegrity { tool: String },
    /// The companion-version mapping has no entry for the requested version;
    /// names the missing key.
    UnsupportedVersion { requested: String },
    /// A filesystem path that the operation needs does not exist.
    FsNotFound,
    /// The requested options contradict each other: more than one build
    /// profile was asked for at once.
    Configuration,
}

impl Clone for Error {
    fn clone(&self) -> (res: Self)
        ensures
            res == *self,
    {
        match self {
            Error::VersionMismatch { expected, found } => Error::VersionMismatch {
                expected: expected.clone(),
                found: found.clone(),
            },
            Error::PlatformUnsupported => Error::PlatformUnsupported,
            Error::InstallForbidden { tool, version } => Error::InstallForbidden {
                tool: tool.clone(),
                version: version.clone(),
            },
            Error::Network => Error::Network,
            Error::SubprocessFailure { tool } => Error::SubprocessFailure { tool: tool.clone() },
            Error::ArchiveIntegrity { tool } => Error::ArchiveIntegrity { tool: tool.clone() },
            Error::UnsupportedVersion { requested } => Error::UnsupportedVersion {
                requested: requested.clone(),
            },
            Error::FsNotFound => Error::FsNotFound,
            Error::Configuration => Error::Configuration,
        }
    }
}

impl Error {
    /// True of exactly the `InstallForbidden` kind; the orchestrator uses it
    /// to choose a distinct user-facing message.
    pub fn is_install_forbidden(&self) -> (r: bool)
        ensures
            r == (self is InstallForbidden),
    {
        match self {
            Error::InstallForbidden { .. } => true,
            _ => false,
        }
    }
}

} // verus!
