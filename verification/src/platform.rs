//! The host platform, and the selection of a prebuilt-archive target triple
//! for it.

use vstd::prelude::*;
use crate::error::Error;

verus! {

/// The host operating system, as far as prebuilt archives distinguish it.
#[derive(Clone, Copy, Debug, PartialEq, Eq, Structural)]
pub enum Os {
    Linux,
    MacOs,
    Windows,
    Other,
}

/// The host processor architecture, as far as prebuilt archives
/// distinguish it.
#[derive(Clone, Copy, Debug, PartialEq, Eq, Structural)]
pub enum Arch {
    X86_64,
    Aarch64,
    Other,
}

/// The host platform a build runs on. The caller determines it once and
/// passes it in; every platform-conditioned decision below is a function
/// of this value.
#[derive(Clone, Copy, Debug, PartialEq, Eq, Structural)]
pub struct Platform {
    pub os: Os,
    pub arch: Arch,
}

/// The target triple of the prebuilt tool archive for `p`, if one is
/// published for that platform.
pub open spec fn spec_target_triple(p: Platform) -> Option<Seq<char>> {
    if p.os is Linux && p.arch is X86_64 {
        Some("x86_64-unknown-linux-gnu"@)
    } else if p.os is MacOs && p.arch is X86_64 {
        Some("x86_64-apple-darwin"@)
    } else if p.os is Windows && p.arch is X86_64 {
        Some("x86_64-pc-windows-msvc"@)
    } else if p.os is Linux && p.arch is Aarch64 {
        Some("aarch64-unknown-linux-gnu"@)
    } else {
        None
    }
}

impl Platform {
    /// Selects the target triple of the prebuilt archive for this platform;
    /// an unsupported combination is a `PlatformUnsupported` error.
    pub fn target_triple(&self) -> (r: Result<&'static str, Error>)
        ensures
            spec_target_triple(*self) matches Some(t) ==> (r matches Ok(s) && s@ == t),
            spec_target_triple(*self) is None ==> (r matches Err(e) && e is PlatformUnsupported),
    {
        if matches!(self.os, Os::Linux) && matches!(self.arch, Arch::X86_64) {
            Ok("x86_64-unknown-linux-gnu")
        } else if matches!(self.os, Os::MacOs) && matches!(self.arch, Arch::X86_64) {
            Ok("x86_64-apple-darwin")
        } else if matches!(self.os, Os::Windows) && matches!(self.arch, Arch::X86_64) {
            Ok("x86_64-pc-windows-msvc")
        } else if matches!(self.os, Os::Linux) && matches!(self.arch, Arch::Aarch64) {
            Ok("aarch64-unknown-linux-gnu")
        } else {
            Err(Error::PlatformUnsupported)
        }
    }

    /// Whether a prebuilt ahead-of-time compiler is published for this
    /// platform: only Linux on x86-64.
    pub fn has_aot_prebuilt(&self) -> (r: bool)
        ensures
            r == (self.os is Linux && self.arch is X86_64),
    {
        matches!(self.os, Os::Linux) && matches!(self.arch, Arch::X86_64)
    }
}

} // verus!
