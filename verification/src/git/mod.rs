//! Git: the commands the tool runs in the repositories, and the plans of
//! the operations over all of them.
//!
//! Running `git` is left to the program; the library says which arguments
//! it gets and what each step of an operation is.

pub mod cmd;
pub mod ops;
