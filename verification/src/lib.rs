//! A health check that asks one thing of one service: a single GET against
//! this machine, and an exit status that says how it went.
//!
//! The library decides; it never touches the network or the process. Its
//! caller hands it the command line and a snapshot of the environment, makes
//! the request that it describes, and hands back what came of it.

pub mod args;
pub mod commands;
pub mod decimal;
pub mod env;
pub mod resolution;
pub mod text;
pub mod url;

pub use args::{Config, ConfigError, Preconfig, Scheme};
pub use commands::{Error, Outcome, ProbeRequest, ProbeResult, THC};
pub use env::Env;
