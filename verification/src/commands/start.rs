//! Starting a container: the engine command line that runs it, the scripts it
//! runs on init, and the steps of the start.
use vstd::prelude::*;
use crate::engine::EngineError;
use crate::vars::ExpandError;

pub mod mounts;
pub mod terminfo;
pub mod naming;
pub mod run;
pub mod prepare;
pub mod steps;
pub mod nix;

verus! {

/// Why a start failed.
#[derive(Debug, Clone)]
pub enum StartError {
    /// Containers already run in the current directory (their names joined by spaces).
    RunningHere(String),
    /// A container of this name already exists.
    NameTaken(String),
    /// The name of the container is empty.
    NameEmpty,
    /// gvisor (runsc) is not in the path.
    NoGvisor,
    /// An additional mount does not exist.
    MountMissing(String),
    /// An additional mount is not a directory.
    MountNotDir(String),
    /// An additional mount has no last component (the root directory).
    MountUnnamed(String),
    /// The pipewire socket does not exist (its path).
    PipewireMissing(String),
    /// `PULSE_SERVER` is not a unix socket address (its value).
    PulseInvalid(String),
    /// The pulseaudio socket does not exist (its path).
    PulseMissing(String),
    /// No wayland display is named in the environment.
    WaylandUndefined,
    /// The wayland socket does not exist (its path).
    WaylandMissing(String),
    /// The directory of GPU devices could not be read.
    GpuListFailed,
    /// The GPU of this index was not found.
    GpuMissing(u8),
    /// `SSH_AUTH_SOCK` is not defined.
    SshUndefined,
    /// The ssh-agent socket does not exist (its path).
    SshMissing(String),
    /// `DBUS_SESSION_BUS_ADDRESS` is not defined.
    BusUndefined,
    /// `DBUS_SESSION_BUS_ADDRESS` is not a unix path address (its value).
    BusInvalid(String),
    /// The session bus socket does not exist (its path).
    BusMissing(String),
    /// No terminfo directory was found.
    NoTerminfo,
    /// The `hostname` command could not be run.
    HostnameCall,
    /// The host name could not be found.
    NoHostname,
    /// A variable of the configuration could not be expanded.
    Expand(ExpandError),
    /// The engine gave an unexpected answer.
    Engine(EngineError),
    /// The image could not be pulled.
    PullFailed(String),
    /// The container could not be started (what the engine wrote on stderr).
    InitFailed(String),
    /// Writing a file into the container failed (the file, the exit code).
    WriteFailed(String, u8),
    /// The container exited during its initialization.
    ContainerExited,
    /// The initialization check ended with an unknown exit code.
    InitUnknown(u8),
    /// A step got an answer it does not wait for.
    Unexpected,
}

/// The model of a start error: the same cases, with texts as sequences.
pub ghost enum StartFault {
    RunningHere(Seq<char>),
    NameTaken(Seq<char>),
    NameEmpty,
    NoGvisor,
    MountMissing(Seq<char>),
    MountNotDir(Seq<char>),
    MountUnnamed(Seq<char>),
    PipewireMissing(Seq<char>),
    PulseInvalid(Seq<char>),
    PulseMissing(Seq<char>),
    WaylandUndefined,
    WaylandMissing(Seq<char>),
    GpuListFailed,
    GpuMissing(u8),
    SshUndefined,
    SshMissing(Seq<char>),
    BusUndefined,
    BusInvalid(Seq<char>),
    BusMissing(Seq<char>),
    NoTerminfo,
    HostnameCall,
    NoHostname,
    Expand(Seq<char>),
    Engine(EngineError),
    PullFailed(Seq<char>),
    InitFailed(Seq<char>),
    WriteFailed(Seq<char>, u8),
    ContainerExited,
    InitUnknown(u8),
    Unexpected,
}

impl View for StartError {
    type V = StartFault;

    open spec fn view(&self) -> StartFault {
        match self {
            StartError::RunningHere(s) => StartFault::RunningHere(s@),
            StartError::NameTaken(s) => StartFault::NameTaken(s@),
            StartError::NameEmpty => StartFault::NameEmpty,
            StartError::NoGvisor => StartFault::NoGvisor,
            StartError::MountMissing(s) => StartFault::MountMissing(s@),
            StartError::MountNotDir(s) => StartFault::MountNotDir(s@),
            StartError::MountUnnamed(s) => StartFault::MountUnnamed(s@),
            StartError::PipewireMissing(s) => StartFault::PipewireMissing(s@),
            StartError::PulseInvalid(s) => StartFault::PulseInvalid(s@),
            StartError::PulseMissing(s) => StartFault::PulseMissing(s@),
            StartError::WaylandUndefined => StartFault::WaylandUndefined,
            StartError::WaylandMissing(s) => StartFault::WaylandMissing(s@),
            StartError::GpuListFailed => StartFault::GpuListFailed,
            StartError::GpuMissing(i) => StartFault::GpuMissing(*i),
            StartError::SshUndefined => StartFault::SshUndefined,
            StartError::SshMissing(s) => StartFault::SshMissing(s@),
            StartError::BusUndefined => StartFault::BusUndefined,
            StartError::BusInvalid(s) => StartFault::BusInvalid(s@),
            StartError::BusMissing(s) => StartFault::BusMissing(s@),
            StartError::NoTerminfo => StartFault::NoTerminfo,
            StartError::HostnameCall => StartFault::HostnameCall,
            StartError::NoHostname => StartFault::NoHostname,
            StartError::Expand(ExpandError::Undefined(s)) => StartFault::Expand(s@),
            StartError::Engine(e) => StartFault::Engine(*e),
            StartError::PullFailed(s) => StartFault::PullFailed(s@),
            StartError::InitFailed(s) => StartFault::InitFailed(s@),
            StartError::WriteFailed(s, c) => StartFault::WriteFailed(s@, *c),
            StartError::ContainerExited => StartFault::ContainerExited,
            StartError::InitUnknown(c) => StartFault::InitUnknown(*c),
            StartError::Unexpected => StartFault::Unexpected,
        }
    }
}

/// A step that appends engine arguments: it either appended `extra` (when the
/// model result is `Ok(extra)`) or failed with the model error, having
/// appended `done` before it failed.
pub open spec fn appended(r: Result<(), StartError>, before: Seq<Seq<char>>, after: Seq<Seq<char>>, expected: Result<Seq<Seq<char>>, StartFault>, done: Seq<Seq<char>>) -> bool {
    match expected {
        Ok(extra) => r is Ok && after == before + extra,
        Err(f) => r matches Err(e) && e@ == f && after == before + done,
    }
}

} // verus!
