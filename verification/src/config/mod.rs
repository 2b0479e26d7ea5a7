//! Configuration: the shapes of the configuration files and the rules that
//! loading them applies.

pub mod types;
pub mod loader;
pub mod laws;
