//! The decisions of the commands of the tool.
//!
//! Commands that talk to the engine in between their decisions are state
//! machines: each step takes the answer of the last engine call and tells what
//! to do next.
use vstd::prelude::*;
use crate::engine::{EngineError, Podman};
use crate::text::copy_str;

pub mod lookup;
pub mod kill;
pub mod exec;
pub mod shell;
pub mod start;
pub mod image;
pub mod init;
pub mod init_steps;
pub mod listing;
pub mod gui;
pub mod config_cmd;
pub mod health;

verus! {

/// Why a command failed.
#[derive(Debug, Clone, PartialEq, Eq)]
pub enum CommandError {
    /// No container was given and none runs in the current directory.
    NoCwdContainer,
    /// The named container does not exist.
    ContainerMissing(String),
    /// The named container is not managed by the application.
    NotOwned(String),
    /// The named container lacks the label (second value).
    MissingLabel(String, String),
    /// The user did not confirm.
    Cancelled,
    /// The engine gave an unexpected answer.
    Engine(EngineError),
    /// A step got an answer it does not wait for.
    Unexpected,
}

/// An engine command to carry out: run it, or only show it (dry run).
#[derive(Debug, Clone)]
pub struct CommandPlan {
    /// Arguments of the engine.
    pub args: Vec<String>,
    /// Only show the command, do not run it.
    pub dry_run: bool,
}


/// A container started for a check; the name it is known by.
#[derive(Debug)]
pub struct Container {
    /// The engine that runs it.
    pub engine: Podman,
    /// Its name.
    pub container: String,
}

impl Container {
    /// The name of the container.
    pub fn describe(&self) -> (r: String)
        ensures
            r@ == self.container@,
    {
        copy_str(self.container.as_str())
    }
}

} // verus!
