//! Verified core of the ModOrganizer build tool.

pub mod cli;
pub mod cmd;
pub mod config;
pub mod host;
pub mod error;
pub mod git;
pub mod logging;
pub mod net;
pub mod path;
pub mod strmap;
pub mod text;
