//! The cNEAR fungible token and the tools that deploy it.
pub mod text;
pub mod paths;
pub mod secret_key;
pub mod sorting;
pub mod account;
pub mod token;
pub mod host;
pub mod frozen;
pub mod metadata;
pub mod json;
pub mod arguments;
pub mod digest;
pub mod events;
pub mod model;
pub mod contract;
pub mod contract_laws;
pub mod call_laws;
pub mod near_amount;
pub mod deploy_cli;
pub mod deploy;
