//! Node orchestration core: node state, commands, chat sessions and their rules.
pub mod agent;
pub mod cli;
pub mod clock;
pub mod daemon;
pub mod ids;
pub mod json;
pub mod mcp;
pub mod schemas;
pub mod text;
pub mod validation;
