//! The decisions of the commands: what they compute between reading the
//! configuration and the outside world, and acting on it.

pub mod build;
pub mod config;
pub mod git;
pub mod list;
pub mod release;
pub mod tx;
pub mod pr;
