//! The tool that deploys the controller and the token, registers the deployment and removes
//! access keys once the deployment is final.
pub mod amounts;
pub mod config;
pub mod credentials;
pub mod deployment;
pub mod dry_run;
pub mod keys;
pub mod laws;
pub mod options;
pub mod prompt;
pub mod report;
pub mod run_laws;
pub mod runner;
pub mod tasks;
pub mod text_laws;
