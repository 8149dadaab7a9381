//! Messages of the communication over the unix socket.
use vstd::prelude::*;

verus! {

/// A message sent to the socket.
#[derive(Debug, Clone, Copy, PartialEq, Eq)]
pub enum Command {
    /// Signal repeated by each exec / shell command launch to keep dispose
    /// of dead processes automatically
    Heartbeat {
        /// Host PID of process invoking it
        host_pid: u32,

        /// PID of the process invoked inside container
        container_pid: u32,
    },
}

/// The answer of the socket.
#[derive(Debug, Clone, Copy, PartialEq, Eq)]
pub enum Response {
    /// Basically nothing, placeholder for now
    Received,
}

} // verus!
