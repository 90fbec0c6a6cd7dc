//! The command line.
pub mod agent;
pub mod paths;
