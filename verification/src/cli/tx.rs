//! Arguments of the `tx` command.
//!
//! ```text
//! tx get -k API_KEY -t TEAM -p PROJECT
//!   → pull translations (min threshold, force)
//! tx build
//!   → compile .ts → .qm via lrelease
//! ```

use vstd::prelude::*;

verus! {

/// Arguments for the `tx` command.
#[derive(Debug, Clone)]
pub struct TxArgs {
    /// Transifex subcommand.
    pub subcommand: TxSubcommand,
}

/// Transifex subcommands.
#[derive(Debug, Clone)]
pub enum TxSubcommand {
    /// Initializes a Transifex project and pulls all translation files.
    Get(TxGetArgs),
    /// Builds all .qm files from translation sources.
    Build(TxBuildArgs),
}

/// Arguments for `tx get`.
#[derive(Debug, Clone)]
pub struct TxGetArgs {
    /// Transifex API key.
    pub key: Option<String>,
    /// Transifex team name.
    pub team: Option<String>,
    /// Transifex project name.
    pub project: Option<String>,
    /// Transifex project URL.
    pub url: Option<String>,
    /// Minimum translation threshold to download (0-100).
    pub minimum: Option<u8>,
    /// Don't check timestamps, re-download all translation files.
    pub force: bool,
    /// Path that will contain the .tx directory.
    pub path: String,
}

/// Arguments for `tx build`.
#[derive(Debug, Clone)]
pub struct TxBuildArgs {
    /// Path that contains the translation directories.
    pub source: String,
    /// Path that will contain the .qm files.
    pub destination: String,
}

} // verus!
