//! The commands this crate can execute, and the decisions behind them.

pub mod build;

use vstd::prelude::*;
use self::build::BuildOptions;

verus! {

/// The various kinds of commands that can be executed.
pub enum Command {
    /// Build the package.
    Build(BuildOptions),
    /// Remove the output directory and the compiler's build directory.
    Clean {},
}

} // verus!
