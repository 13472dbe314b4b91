//! Arguments of the `pr` command.
//!
//! ```text
//! mob pr <operation> <task/pr-number>
//! find   → list affected repos (dry-run preview)
//! pull   → fetch PR branch and checkout
//! revert → checkout master for affected repos
//! ```

use vstd::prelude::*;

verus! {

/// Arguments for the `pr` command.
#[derive(Debug, Clone)]
pub struct PrArgs {
    /// GitHub API key.
    pub github_token: Option<String>,
    /// The operation.
    pub operation: PrOperation,
    /// The PR, as `task/number`.
    pub pr: String,
}

/// PR operations.
#[derive(Debug, Clone, Copy, PartialEq, Eq, Structural)]
pub enum PrOperation {
    /// List affected repos.
    Find,
    /// Fetch and checkout PR branch.
    Pull,
    /// Checkout master branch.
    Revert,
}

} // verus!
