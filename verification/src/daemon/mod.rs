//! The daemon: the nodes of a machine and what is done with them.
pub mod activity;
pub mod building;
pub mod commands;
pub mod error;
pub mod health;
pub mod laws;
pub mod node;
pub mod node_manager;
pub mod registry;
pub mod signals;
pub mod systemd;
pub mod table;
pub mod uptime;
