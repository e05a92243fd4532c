//! Read-only network diagnostics for a Linux host.
//!
//! - [`netdiag`]: which commands exist, which may run, and what their output
//!   means
//! - [`mcp`]: the tools in front of the commands, and the audit journal
//! - [`tools`] and [`commands`]: a compact service with seven of the tools
//! - [`config`], [`errors`], [`protocol`]: limits and environment variables,
//!   errors and their codes, JSON-RPC
//! - [`json`], [`text`], [`key_set`], [`assoc`], [`calendar`], [`clock`]: the
//!   values that the rest is made of
//!
//! The library starts no process, opens no file and reads no variable. It says
//! what is to be done and what the outcome means; its caller does the rest.

pub mod assoc;
pub mod calendar;
pub mod calendar_laws;
pub mod clock;
pub mod commands;
pub mod config;
pub mod error_laws;
pub mod errors;
pub mod json;
pub mod json_laws;
pub mod key_set;
pub mod mcp;
pub mod netdiag;
pub mod protocol;
pub mod text;
pub mod text_laws;
pub mod tools;
pub mod tools_laws;
