//! The messages of the library's errors, as they are shown to the user.
use vstd::prelude::*;
use crate::commands::init_steps::InitError;
use crate::commands::start::nix::NixError;
use crate::commands::start::StartError;
use crate::commands::CommandError;
use crate::consts::APP_NAME;
use crate::engine::EngineError;
use crate::text::{concat, copy_str, debug_quoted, dec_text, push_str, str_debug, u64_to_string};
use crate::vars::ExpandError;

verus! {

/// `pre`, the text `s` quoted as `{:?}` shows it, then `post`.
fn quoted(pre: &str, s: &str, post: &str) -> (r: String)
    ensures
        r@ == pre@ + str_debug(s@) + post@,
{
    let mut m = copy_str(pre);
    push_str(&mut m, debug_quoted(s).as_str());
    push_str(&mut m, post);
    m
}

/// `pre`, then the text `s` quoted as `{:?}` shows it.
fn quoted_end(pre: &str, s: &str) -> (r: String)
    ensures
        r@ == pre@ + str_debug(s@),
{
    concat(pre, debug_quoted(s).as_str())
}

/// `pre`, then the decimal text of `n`.
fn numbered_end(pre: &str, n: u64) -> (r: String)
    ensures
        r@ == pre@ + dec_text(n as nat),
{
    concat(pre, u64_to_string(n).as_str())
}

/// `pre`, the decimal text of `n`, then `post`.
fn numbered(pre: &str, n: u64, post: &str) -> (r: String)
    ensures
        r@ == pre@ + dec_text(n as nat) + post@,
{
    let mut m = copy_str(pre);
    push_str(&mut m, u64_to_string(n).as_str());
    push_str(&mut m, post);
    m
}

/// The message of an error of the engine: the one it holds.
pub open spec fn engine_message(e: EngineError) -> Seq<char> {
    match e {
        EngineError::ContainerCheck(m) => m@,
        EngineError::ImageCheck(m) => m@,
    }
}

impl EngineError {
    /// The message of the error (see `engine_message`).
    pub fn message(&self) -> (r: String)
        ensures
            r@ == engine_message(*self),
    {
        match self {
            EngineError::ContainerCheck(m) => copy_str(m.as_str()),
            EngineError::ImageCheck(m) => copy_str(m.as_str()),
        }
    }
}

/// The message of an expansion error: the variable, quoted, is undefined.
pub open spec fn expand_message(e: ExpandError) -> Seq<char> {
    match e {
        ExpandError::Undefined(n) => "Error env variable "@ + str_debug(n@) + " is undefined"@,
    }
}

impl ExpandError {
    /// The message of the error (see `expand_message`).
    pub fn message(&self) -> (r: String)
        ensures
            r@ == expand_message(*self),
    {
        match self {
            ExpandError::Undefined(n) => quoted("Error env variable ", n.as_str(), " is undefined"),
        }
    }
}

/// The message of an error of a command on containers.
pub open spec fn command_message(e: CommandError) -> Seq<char> {
    match e {
        CommandError::NoCwdContainer => "Could not find a running container in current directory"@,
        CommandError::ContainerMissing(n) => "Container "@ + str_debug(n@) + " does not exist"@,
        CommandError::NotOwned(n) => "Container "@ + str_debug(n@) + " is not owned by "@ + APP_NAME@,
        CommandError::MissingLabel(n, l) => "Container "@ + str_debug(n@) + " does not have label "@ + str_debug(l@),
        CommandError::Cancelled => "Cancelled by user."@,
        CommandError::Engine(e) => engine_message(e),
        CommandError::Unexpected => "Unexpected answer of the engine"@,
    }
}

impl CommandError {
    /// The message of the error (see `command_message`).
    pub fn message(&self) -> (r: String)
        ensures
            r@ == command_message(*self),
    {
        match self {
            CommandError::NoCwdContainer => copy_str("Could not find a running container in current directory"),
            CommandError::ContainerMissing(n) => quoted("Container ", n.as_str(), " does not exist"),
            CommandError::NotOwned(n) => { let mut m = quoted("Container ", n.as_str(), " is not owned by "); push_str(&mut m, APP_NAME); m },
            CommandError::MissingLabel(n, l) => { let mut m = quoted("Container ", n.as_str(), " does not have label "); push_str(&mut m, debug_quoted(l.as_str()).as_str()); m },
            CommandError::Cancelled => copy_str("Cancelled by user."),
            CommandError::Engine(e) => e.message(),
            CommandError::Unexpected => copy_str("Unexpected answer of the engine"),
        }
    }
}

/// The message of an error of a nix build.
pub open spec fn nix_message(e: NixError) -> Seq<char> {
    match e {
        NixError::FileMissing(p) => "File "@ + str_debug(p@) + " does not exist"@,
        NixError::FlakeMissing(p) => "Flake not found in "@ + str_debug(p@),
        NixError::Failed(c) => "nix build exited with code "@ + dec_text(c as nat),
        NixError::NotUtf8 => "nix build printed invalid UTF-8"@,
        NixError::Empty => "nix-build returned nothing"@,
        NixError::BadJson => "Could not parse JSON output from nix"@,
        NixError::NoOut => "The nix build has no out output"@,
    }
}

impl NixError {
    /// The message of the error (see `nix_message`).
    pub fn message(&self) -> (r: String)
        ensures
            r@ == nix_message(*self),
    {
        match self {
            NixError::FileMissing(p) => quoted("File ", p.as_str(), " does not exist"),
            NixError::FlakeMissing(p) => quoted_end("Flake not found in ", p.as_str()),
            NixError::Failed(c) => numbered_end("nix build exited with code ", *c as u64),
            NixError::NotUtf8 => copy_str("nix build printed invalid UTF-8"),
            NixError::Empty => copy_str("nix-build returned nothing"),
            NixError::BadJson => copy_str("Could not parse JSON output from nix"),
            NixError::NoOut => copy_str("The nix build has no out output"),
        }
    }
}

/// The message of an error of the start.
pub open spec fn start_message(e: StartError) -> Seq<char> {
    match e {
        StartError::RunningHere(names) => "There are containers running in current directory: "@ + str_debug(names@),
        StartError::NameTaken(n) => "Container with name "@ + str_debug(n@) + " already exists"@,
        StartError::NameEmpty => "Container name is empty"@,
        StartError::NoGvisor => "Could not find gvisor (runsc) in path"@,
        StartError::MountMissing(m) => "Mountpoint "@ + str_debug(m@) + " does not exist"@,
        StartError::MountNotDir(m) => "Mountpoint "@ + str_debug(m@) + " is not a directory"@,
        StartError::MountUnnamed(m) => "Mountpoint "@ + str_debug(m@) + " has no name"@,
        StartError::PipewireMissing(p) => "Could not find pipewire socket at "@ + str_debug(p@),
        StartError::PulseInvalid(v) => "Invalid PULSE_SERVER value "@ + str_debug(v@),
        StartError::PulseMissing(p) => "Could not find pulseaudio socket at "@ + str_debug(p@),
        StartError::WaylandUndefined => "Could not pass through wayland socket as WAYLAND_DISPLAY is not defined"@,
        StartError::WaylandMissing(p) => "Could not find the wayland socket "@ + str_debug(p@),
        StartError::GpuListFailed => "Error reading /dev/dri"@,
        StartError::GpuMissing(i) => "Could not find card with index "@ + dec_text(i as nat),
        StartError::SshUndefined => "Could not pass through ssh-agent as SSH_AUTH_SOCK is not defined"@,
        StartError::SshMissing(p) => "Socket does not exist at "@ + str_debug(p@) + " (ssh-agent)"@,
        StartError::BusUndefined => "Could not pass through session bus as DBUS_SESSION_BUS_ADDRESS is not defined"@,
        StartError::BusInvalid(v) => "Invalid format for DBUS_SESSION_BUS_ADDRESS="@ + str_debug(v@),
        StartError::BusMissing(p) => "Socket does not exist at "@ + str_debug(p@) + " (session bus)"@,
        StartError::NoTerminfo => "Could not find any TERMINFO directories!"@,
        StartError::HostnameCall => "Could not call hostname"@,
        StartError::NoHostname => "Unable to get hostname from host"@,
        StartError::Expand(e) => expand_message(e),
        StartError::Engine(e) => engine_message(e),
        StartError::PullFailed(i) => "Failed to pull image "@ + str_debug(i@),
        StartError::InitFailed(s) => "Stderr from container init: "@ + s@,
        StartError::WriteFailed(f, c) => "Error writing to file "@ + str_debug(f@) + " in container ("@ + dec_text(c as nat) + ")"@,
        StartError::ContainerExited => "Container has exited unexpectedly (125)"@,
        StartError::InitUnknown(c) => "Unknown error during container initialization ("@ + dec_text(c as nat) + ")"@,
        StartError::Unexpected => "Unexpected answer during the start"@,
    }
}

impl StartError {
    /// The message of the error (see `start_message`).
    pub fn message(&self) -> (r: String)
        ensures
            r@ == start_message(*self),
    {
        match self {
            StartError::RunningHere(names) => quoted_end("There are containers running in current directory: ", names.as_str()),
            StartError::NameTaken(n) => quoted("Container with name ", n.as_str(), " already exists"),
            StartError::NameEmpty => copy_str("Container name is empty"),
            StartError::NoGvisor => copy_str("Could not find gvisor (runsc) in path"),
            StartError::MountMissing(m) => quoted("Mountpoint ", m.as_str(), " does not exist"),
            StartError::MountNotDir(m) => quoted("Mountpoint ", m.as_str(), " is not a directory"),
            StartError::MountUnnamed(m) => quoted("Mountpoint ", m.as_str(), " has no name"),
            StartError::PipewireMissing(p) => quoted_end("Could not find pipewire socket at ", p.as_str()),
            StartError::PulseInvalid(v) => quoted_end("Invalid PULSE_SERVER value ", v.as_str()),
            StartError::PulseMissing(p) => quoted_end("Could not find pulseaudio socket at ", p.as_str()),
            StartError::WaylandUndefined => copy_str("Could not pass through wayland socket as WAYLAND_DISPLAY is not defined"),
            StartError::WaylandMissing(p) => quoted_end("Could not find the wayland socket ", p.as_str()),
            StartError::GpuListFailed => copy_str("Error reading /dev/dri"),
            StartError::GpuMissing(i) => numbered_end("Could not find card with index ", *i as u64),
            StartError::SshUndefined => copy_str("Could not pass through ssh-agent as SSH_AUTH_SOCK is not defined"),
            StartError::SshMissing(p) => quoted("Socket does not exist at ", p.as_str(), " (ssh-agent)"),
            StartError::BusUndefined => copy_str("Could not pass through session bus as DBUS_SESSION_BUS_ADDRESS is not defined"),
            StartError::BusInvalid(v) => quoted_end("Invalid format for DBUS_SESSION_BUS_ADDRESS=", v.as_str()),
            StartError::BusMissing(p) => quoted("Socket does not exist at ", p.as_str(), " (session bus)"),
            StartError::NoTerminfo => copy_str("Could not find any TERMINFO directories!"),
            StartError::HostnameCall => copy_str("Could not call hostname"),
            StartError::NoHostname => copy_str("Unable to get hostname from host"),
            StartError::Expand(e) => e.message(),
            StartError::Engine(e) => e.message(),
            StartError::PullFailed(i) => quoted_end("Failed to pull image ", i.as_str()),
            StartError::InitFailed(s) => concat("Stderr from container init: ", s.as_str()),
            StartError::WriteFailed(f, c) => { let mut m = quoted("Error writing to file ", f.as_str(), " in container ("); push_str(&mut m, u64_to_string(*c as u64).as_str()); push_str(&mut m, ")"); m },
            StartError::ContainerExited => copy_str("Container has exited unexpectedly (125)"),
            StartError::InitUnknown(c) => numbered("Unknown error during container initialization (", *c as u64, ")"),
            StartError::Unexpected => copy_str("Unexpected answer during the start"),
        }
    }
}

/// The message of an error of the init inside the container.
pub open spec fn init_message(e: InitError) -> Seq<char> {
    match e {
        InitError::Undefined(m) => m@,
        InitError::SetupFailed => "Error while setting up the user"@,
        InitError::FontCacheFailed => "Failed to regenerate font cache"@,
        InitError::RuntimeUndefined => "XDG_RUNTIME_DIR is undefined"@,
        InitError::PasswdFailed(c) => "Error while setting passwd for root ("@ + dec_text(c as nat) + ")"@,
        InitError::ScriptFailed(f) => "Script "@ + str_debug(f@) + " has failed"@,
        InitError::Unexpected => "Unexpected answer during the init"@,
    }
}

impl InitError {
    /// The message of the error (see `init_message`).
    pub fn message(&self) -> (r: String)
        ensures
            r@ == init_message(*self),
    {
        match self {
            InitError::Undefined(m) => copy_str(m.as_str()),
            InitError::SetupFailed => copy_str("Error while setting up the user"),
            InitError::FontCacheFailed => copy_str("Failed to regenerate font cache"),
            InitError::RuntimeUndefined => copy_str("XDG_RUNTIME_DIR is undefined"),
            InitError::PasswdFailed(c) => numbered("Error while setting passwd for root (", *c as u64, ")"),
            InitError::ScriptFailed(f) => quoted("Script ", f.as_str(), " has failed"),
            InitError::Unexpected => copy_str("Unexpected answer during the init"),
        }
    }
}

} // verus!
