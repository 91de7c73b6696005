//! Per-workspace code-intelligence daemon: wire codec, query dispatch and the
//! engine-session bridge, with their contracts.

pub mod cli;
pub mod daemon;
pub mod error;
pub mod ipc;
pub mod lines;
pub mod lsp;
pub mod numbers;
pub mod paths;
pub mod service;
pub mod supervisor;
pub mod text;
