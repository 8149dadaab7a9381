//! The context that every command runs in.
use vstd::prelude::*;
use crate::cli::ConfigLoad;
use crate::engine::{Engine, Podman};
use crate::command_ext::{lines_of, utf8_lossy, CommandOutput};
use crate::consts::{APP_NAME, CONTAINER_LABEL_HOST_DIR, ENV_APP_DIR};
use crate::host::env_get;
use crate::vars::{getter_agrees, opt_view};
use crate::text::copy_str;
use crate::paths::{join_path, path_join};
use crate::text::push_str;

verus! {

/// Context used throughout the application
pub struct Context {
    /// Name of the user
    pub user: String,
    /// Home directory of the user
    pub user_home: String,
    /// User id
    pub user_id: u32,
    /// Primary group id of the user
    pub user_gid: u32,

    /// Current working directory
    pub cwd: String,

    /// Meant mostly for debugging, print commands instead of executing them
    pub dry_run: bool,

    /// Directory where app related configuration files reside
    pub app_dir: String,

    /// Engine to use
    pub engine: Podman,
}

impl Context {
    /// The directory of container configurations.
    pub open spec fn config_dir_spec(&self) -> Seq<char> {
        path_join(self.app_dir@, "configs"@)
    }

    /// The file of the configuration named `name`.
    pub open spec fn config_file_path(&self, name: Seq<char>) -> Seq<char> {
        path_join(self.config_dir_spec(), name + ".toml"@)
    }

    /// Get container configuration directory
    pub fn config_dir(&self) -> (r: String)
        ensures
            r@ == self.config_dir_spec(),
    {
        join_path(self.app_dir.as_str(), "configs")
    }

    /// Tries to find config by the name: the file it is read from.
    pub fn find_config(&self, name: &str) -> (r: ConfigLoad)
        ensures
            r matches ConfigLoad::FromFile(p) && p@ == self.config_file_path(name@),
    {
        let mut file = String::new();
        push_str(&mut file, name);
        push_str(&mut file, ".toml");
        let dir = self.config_dir();
        ConfigLoad::FromFile(join_path(dir.as_str(), file.as_str()))
    }

    /// The labels that select the containers started in the current directory.
    pub open spec fn cwd_labels(&self) -> Seq<(Seq<char>, Option<Seq<char>>)> {
        seq![(CONTAINER_LABEL_HOST_DIR@, Some(self.cwd@))]
    }

    /// Get all owned containers in this directory: the engine arguments that
    /// list them.
    pub fn cwd_containers_args(&self) -> (r: Vec<String>)
        ensures
            r.deep_view() == self.engine.spec_list_args(self.cwd_labels()),
    {
        let mut labels: Vec<(String, Option<String>)> = Vec::new();
        labels.push((copy_str(CONTAINER_LABEL_HOST_DIR), Some(self.cwd.clone())));
        assert(labels.deep_view() =~= self.cwd_labels());
        self.engine.get_containers_args(&labels)
    }

    /// Get all owned containers in this directory, from the output of the
    /// listing.
    pub fn get_cwd_containers(&self, output: &CommandOutput) -> (r: Vec<String>)
        ensures
            r.deep_view() == lines_of(utf8_lossy(output.stdout@)),
    {
        self.engine.get_containers(output)
    }
}


/// The directory of the application: the one named by its variable, else
/// the application's directory under `XDG_CONFIG_HOME`, else under
/// `~/.config`; `None` when not even `HOME` is set.
pub open spec fn app_dir_spec(envs: spec_fn(Seq<char>) -> Option<Seq<char>>) -> Option<Seq<char>> {
    match envs(ENV_APP_DIR@) {
        Some(d) => Some(d),
        None => match envs("XDG_CONFIG_HOME"@) {
            Some(x) => Some(path_join(x, APP_NAME@)),
            None => match envs("HOME"@) {
                Some(h) => Some(path_join(path_join(h, ".config"@), APP_NAME@)),
                None => None,
            },
        },
    }
}

/// Get app configuration directory (see `app_dir_spec`).
pub fn get_app_dir<E: Fn(&str) -> Option<String>>(env: &E) -> (r: Option<String>)
    requires
        forall|x: &str| #[trigger] env.requires((x,)),
    ensures
        forall|envs: spec_fn(Seq<char>) -> Option<Seq<char>>| getter_agrees(*env, envs) ==> opt_view(r) == app_dir_spec(envs),
{
    // prefer custom path from environment
    match env_get(env, ENV_APP_DIR) {
        Some(d) => Some(d),
        None => match env_get(env, "XDG_CONFIG_HOME") {
            // respect XDG standard
            Some(x) => Some(join_path(x.as_str(), APP_NAME)),
            // fallback to ~/.config
            None => match env_get(env, "HOME") {
                Some(h) => {
                    let c = join_path(h.as_str(), ".config");
                    Some(join_path(c.as_str(), APP_NAME))
                },
                None => None,
            },
        },
    }
}

impl Context {
    /// State directory for this app: the application's directory under
    /// `XDG_STATE_HOME` (`xdg_state_home`), else under `~/.local/state`.
    pub fn get_local_state_dir(&self, xdg_state_home: Option<&str>) -> (r: String)
        ensures
            r@ == path_join(match xdg_state_home {
                Some(x) => x@,
                None => path_join(path_join(path_join("/home/"@, self.user@), ".local"@), "state"@),
            }, APP_NAME@),
    {
        let base = match xdg_state_home {
            Some(x) => copy_str(x),
            None => {
                let h = join_path("/home/", self.user.as_str());
                let l = join_path(h.as_str(), ".local");
                join_path(l.as_str(), "state")
            },
        };
        join_path(base.as_str(), APP_NAME)
    }
}

} // verus!
