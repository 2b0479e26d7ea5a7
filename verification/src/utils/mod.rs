//! Small utilities.

pub mod logger;
