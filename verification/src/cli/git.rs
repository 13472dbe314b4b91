//! Arguments of the `git` command.

use vstd::prelude::*;

verus! {

/// Arguments for the `git` command.
#[derive(Debug, Clone)]
pub struct GitArgs {
    /// Git subcommand.
    pub subcommand: GitSubcommand,
}

/// Git subcommands.
#[derive(Debug, Clone)]
pub enum GitSubcommand {
    /// Sets up the remotes of every repo.
    SetRemotes(SetRemotesArgs),
    /// Adds a remote to every repo.
    AddRemote(AddRemoteArgs),
    /// Turns `--assume-unchanged` on or off for the `.ts` files.
    IgnoreTs(IgnoreTsArgs),
    /// Lists the branch of every repo.
    Branches(BranchesArgs),
}

/// Arguments for `git set-remotes`.
#[derive(Debug, Clone)]
pub struct SetRemotesArgs {
    /// Git username.
    pub username: String,
    /// Git email.
    pub email: String,
    /// Path to an SSH key.
    pub key: Option<String>,
    /// Disables pushing to upstream.
    pub no_push: bool,
    /// Sets the new origin as the default push remote.
    pub push_default: bool,
    /// Only this repo.
    pub path: Option<String>,
}

/// Arguments for `git add-remote`.
#[derive(Debug, Clone)]
pub struct AddRemoteArgs {
    /// Name of the remote.
    pub name: String,
    /// Git username.
    pub username: String,
    /// Path to an SSH key.
    pub key: Option<String>,
    /// Sets the new remote as the default push remote.
    pub push_default: bool,
    /// Only this repo.
    pub path: Option<String>,
}

/// Arguments for `git ignore-ts`.
#[derive(Debug, Clone, Copy)]
pub struct IgnoreTsArgs {
    /// Whether to ignore the files.
    pub state: IgnoreTsState,
}

/// Whether `.ts` files are ignored.
#[derive(Debug, Clone, Copy, PartialEq, Eq, Structural)]
pub enum IgnoreTsState {
    /// Ignore changes.
    On,
    /// Track changes.
    Off,
}

/// Arguments for `git branches`.
#[derive(Debug, Clone, Copy, Default)]
pub struct BranchesArgs {
    /// Shows every repo, not only those away from master.
    pub all: bool,
}

} // verus!
