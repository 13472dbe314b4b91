//! Arguments of the `cmake-config` command.
//!
//! ```text
//! mob cmake-config <variable>
//! prefix-path    → print CMAKE_PREFIX_PATH
//! install-prefix → print CMAKE_INSTALL_PREFIX
//! ```

use vstd::prelude::*;

verus! {

/// Arguments for the `cmake-config` command.
#[derive(Debug, Clone, Copy)]
pub struct CmakeConfigArgs {
    /// The variable to print.
    pub variable: CmakeVariable,
}

/// `CMake` variables that can be queried.
#[derive(Debug, Clone, Copy, PartialEq, Eq, Structural)]
pub enum CmakeVariable {
    /// `CMAKE_PREFIX_PATH`.
    PrefixPath,
    /// `CMAKE_INSTALL_PREFIX`.
    InstallPrefix,
}

} // verus!
