//! The install mode: the policy on pre-flight checks and on installing
//! missing tools.

use vstd::prelude::*;
use crate::strutil::str_eq;

verus! {

/// Governs whether pre-flight environment checks run at all, and whether the
/// provisioner may perform network downloads or source installs when a tool
/// is missing.
#[derive(Clone, Copy, Debug, PartialEq, Eq, Structural)]
pub enum InstallMode {
    /// Skip the pre-flight checks; installs are permitted.
    Force,
    /// Run the pre-flight checks; installs are permitted.
    Normal,
    /// Run the pre-flight checks; a missing tool is reported as not
    /// installed instead of being downloaded or built.
    NoInstall,
}

/// Whether `m` permits downloading or building a missing tool.
pub open spec fn spec_install_permitted(m: InstallMode) -> bool {
    !(m is NoInstall)
}

impl Default for InstallMode {
    fn default() -> (r: Self)
        ensures
            r is Normal,
    {
        InstallMode::Normal
    }
}

impl InstallMode {
    /// Whether this mode permits downloading or building a missing tool.
    pub fn install_permitted(&self) -> (r: bool)
        ensures
            r == spec_install_permitted(*self),
    {
        !matches!(self, InstallMode::NoInstall)
    }

    /// Parses the mode names accepted on the command line.
    pub fn from_name(s: &str) -> (r: Option<InstallMode>)
        ensures
            s@ == "force"@ ==> r == Some(InstallMode::Force),
            s@ == "normal"@ ==> r == Some(InstallMode::Normal),
            s@ == "no-install"@ ==> r == Some(InstallMode::NoInstall),
            s@ != "force"@ && s@ != "normal"@ && s@ != "no-install"@ ==> r is None,
    {
        proof {
            reveal_strlit("force");
            reveal_strlit("normal");
            reveal_strlit("no-install");
            assert("force"@.len() == 5);
            assert("normal"@.len() == 6);
            assert("no-install"@.len() == 10);
        }
        if str_eq(s, "force") {
            Some(InstallMode::Force)
        } else if str_eq(s, "normal") {
            Some(InstallMode::Normal)
        } else if str_eq(s, "no-install") {
            Some(InstallMode::NoInstall)
        } else {
            None
        }
    }
}

} // verus!
