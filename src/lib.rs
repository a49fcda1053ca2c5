//! Layered configuration for the `glab-cli` command-line client: an INI key-value
//! store, the resolver that merges the per-user and project files, the snapshot
//! with its cached credential, the explicit process binding, and copy-on-write
//! updates.
pub mod store;
pub mod config;
pub mod commands;
pub mod http;
pub mod system;
pub mod ui;
