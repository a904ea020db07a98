//! The tool that deploys the contracts over JSON-RPC, with typed flags and local signing.
pub mod actions;
pub mod cli;
pub mod config;
pub mod credentials;
pub mod laws;
pub mod nonces;
pub mod prompt;
pub mod rpc;
pub mod sending;
pub mod transaction;
