//! Configuration of a chat bot: one optional token for each of two messaging
//! platforms, kept as a TOML document and overlaid with values taken from the
//! process environment.
//!
//! The library holds the rules: which table a configuration is written as,
//! which configuration a table is read as, what the environment overrides, and
//! where persisted state lives. Reading and writing files, the environment and
//! the working directory are left to the caller.

pub mod config;
pub mod document;
pub mod error;
pub mod laws;

pub use config::{BuildProfile, Config, ConfigView, EnvVar};
pub use error::ConfigError;
