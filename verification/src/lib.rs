//! `cozyboot` launches the CozyOS guest runtime.
//!
//! The library covers the configuration-to-invocation pipeline: resolving
//! where the configuration file lives, loading and validating its TOML
//! text, expanding the `$(devroot)` token in path-bearing fields, building
//! the guest's argument list in a fixed order, and deciding the exit code
//! to relay once the guest has terminated. Reading files, spawning the
//! guest and the process environment stay with the binary around this
//! library; every decision made from those inputs is verified here.

pub mod args;
pub mod config;
pub mod errors;
pub mod expand;
pub mod launch;
pub mod load;
pub mod paths;
