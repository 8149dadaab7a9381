//! Verified core of a sandboxed development container manager.
//!
//! The library holds the decisions and the text processing of the tool:
//! variable expansion in configuration values, parsing of command line
//! values, merging of configuration with command line options, building of
//! the engine command lines, and a topological sort used for feature
//! dependencies. Everything that talks to the operating system lives in the
//! application around it.
pub mod consts;
pub mod text;
pub mod vars;
pub mod graph;
pub mod paths;
pub mod cli;
pub mod config;
pub mod context;
pub mod engine;
pub mod command_ext;
pub mod host;
pub mod commands;
pub mod features;
pub mod devcontainers;
pub mod socket;
pub mod prompt;
pub mod messages;
