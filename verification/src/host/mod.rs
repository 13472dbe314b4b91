//! Services of the host system: environments, processes and Visual Studio
//! installations.

pub mod env;
pub mod process;
pub mod vs;
