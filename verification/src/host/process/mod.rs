//! External processes: how one is described, and the decisions taken
//! around running it. Spawning and reading the streams is left to the
//! program.

pub mod builder;
pub mod decode;
pub mod runner;
