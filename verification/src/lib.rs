//! Logging into AWS accounts and services through the AWS CLI: how the wrapped command line is
//! built, how the result of a finished process becomes a typed outcome, and how the tool ties
//! itself into an interactive shell. Every function states its behaviour as a contract.

pub mod error;
pub mod text;
pub mod app;
pub mod run;
pub mod relay;
pub mod sso;
pub mod fish;
