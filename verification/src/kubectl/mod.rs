//! What the dashboard knows of the cluster and of the command-line tool
//! that reaches it.

pub mod client;
pub mod commands;
pub mod json;
pub mod types;

pub use client::KubectlClient;
