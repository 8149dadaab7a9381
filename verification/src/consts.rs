//! Names shared by the host side and the container side.
use vstd::prelude::*;

verus! {

/// Name of the application
pub const APP_NAME: &'static str = "arcam";

/// Label that marks containers owned by the application
pub const CONTAINER_LABEL_APP: &'static str = "arcam";

/// Label with the host directory a container was started in
pub const CONTAINER_LABEL_HOST_DIR: &'static str = "host_dir";

/// Label with the directory of the project inside a container
pub const CONTAINER_LABEL_CONTAINER_DIR: &'static str = "container_dir";

/// Label with the shell of the user inside a container
pub const CONTAINER_LABEL_USER_SHELL: &'static str = "user_shell";

/// Directory inside the container where the application keeps its files
pub const ARCAM_DIR: &'static str = "/arcam";

/// Path of the executable inside the container
pub const ARCAM_EXE: &'static str = "/arcam/arcam";

/// Scripts executed on start of the container
pub const INIT_D_DIR: &'static str = "/init.d";

/// Flag file created when the container is ready for initialization
pub const FLAG_FILE_PRE_INIT: &'static str = "/arcam/preinit";

/// Flag file created when initialization finished
pub const FLAG_FILE_INIT: &'static str = "/arcam/initialized";

/// Workspace directory under the home of the user
pub const WS_DIR: &'static str = "ws";

/// Prefix of the environment variables of the application
pub const ENV_VAR_PREFIX: &'static str = "ARCAM_";

/// Version of the application
pub const VERSION: &'static str = "0.1.0";


/// Variable naming the wayland display to pass through (before `WAYLAND_DISPLAY`)
pub const ENV_WAYLAND_DISPLAY: &'static str = "ARCAM_WAYLAND_DISPLAY";

/// Variable with the suffix of generated container names
pub const ENV_CONTAINER_SUFFIX: &'static str = "ARCAM_CONTAINER_SUFFIX";

/// Variable that holds the path of the executable while a host script runs
pub const ENV_EXE_PATH: &'static str = "ARCAM_EXE_PATH";

/// Variable with the directory of the configuration while a host script runs
pub const ENV_CFG_DIR: &'static str = "ARCAM_CFG_DIR";

/// Variable with the name of the configuration while a host script runs
pub const ENV_CFG_NAME: &'static str = "ARCAM_CFG_NAME";


/// Variable with the directory of the application
pub const ENV_APP_DIR: &'static str = "ARCAM_APP_DIR";

/// Path of the configuration an image carries
pub const ARCAM_CONFIG: &'static str = "/arcam/config.toml";


/// The line that `--version` prints: the name and the version.
pub fn version_line() -> (r: String)
    ensures
        r@ == APP_NAME@ + " "@ + VERSION@ + "\n"@,
{
    crate::text::concat4(APP_NAME, " ", VERSION, "\n")
}

} // verus!
