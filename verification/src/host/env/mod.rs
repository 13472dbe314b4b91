//! Process environments.
//!
//! An environment maps variable names to values; names are compared without
//! regard to ASCII case, as on Windows.

pub mod container;
pub mod types;
pub mod vcvars;
