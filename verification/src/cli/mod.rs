//! Command-line arguments, as plain values.
//!
//! # Command Structure
//!
//! ```text
//! mob [global options] <command>
//! build [tasks...]
//! list
//! release {devbuild|official}
//! git {set-remotes|ignore-ts|add-remote|branches}
//! pr
//! cmake-config
//! tx
//! ```
//!
//! Reading the arguments of the process is left to the program; the library
//! holds what they say and turns options into configuration overrides.

pub mod build;
pub mod cmake;
pub mod git;
pub mod global;
pub mod pr;
pub mod release;
pub mod tx;

use vstd::prelude::*;

use build::{BuildArgs, ListArgs};
use cmake::CmakeConfigArgs;
use git::GitArgs;
use global::GlobalOptions;
use pr::PrArgs;
use release::ReleaseArgs;
use tx::TxArgs;

verus! {

/// The parsed command line.
#[derive(Debug, Clone)]
pub struct Cli {
    /// Global options shared by all commands.
    pub global: GlobalOptions,
    /// Command to execute.
    pub command: Option<Command>,
}

/// Available commands.
#[derive(Debug, Clone)]
pub enum Command {
    /// Shows the version.
    Version,
    /// Lists all options and their values from the INIs.
    Options,
    /// Lists the INIs used by mob.
    Inis,
    /// Builds tasks.
    Build(BuildArgs),
    /// Lists available tasks.
    List(ListArgs),
    /// Creates a release.
    Release(ReleaseArgs),
    /// Manages the git repos.
    Git(GitArgs),
    /// Applies changes from PRs.
    Pr(PrArgs),
    /// Manages transifex translations.
    Tx(TxArgs),
    /// Print `CMake` configuration variables.
    CmakeConfig(CmakeConfigArgs),
}

} // verus!
