//! A small verified core for driving an EVM-engine contract deployment
//! against a local sandbox network.
//!
//! The sandbox itself, transaction signing and transport live outside this
//! crate; what is verified here is the data the driver hands across that
//! boundary:
//!
//! - [`account`]: account identifiers and their validity rules;
//! - [`config`]: the deployment configuration supplied exactly once when a
//!   contract instance is initialized;
//! - [`args`]: the argument records of the administrative calls;
//! - [`codec`]: the raw-bytes argument codec, which must deliver a
//!   pre-encoded payload unmodified.

pub mod account;
pub mod args;
pub mod codec;
pub mod config;
