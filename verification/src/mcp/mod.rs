//! What the tools of the MCP server ask of the daemon.
pub mod laws;
pub mod mock;
pub mod platform;
pub mod rbac;
