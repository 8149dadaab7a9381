//! The steps of a start: each takes the answer to the last action and tells
//! what to do next.
use vstd::prelude::*;
use crate::cli::{CmdStartArgs, ConfigArg, ConfigLoad};
use crate::command_ext::{lossy_text, utf8_lossy, CommandOutput};
use crate::commands::start::{StartError, StartFault};
use crate::commands::start::prepare::{draw_numbers, prepare_config, prepared_from, start_lookup, start_name, start_name_ok, Numbers, Prepared};
use crate::commands::start::mounts::gpus_of;
use crate::commands::start::run::{image_of, run_args, run_outcome, HostFacts};
use crate::host::{probe_agrees, PathKind};
use crate::config::{ConfigV1, SourceV1};
use crate::consts::{ENV_EXE_PATH, FLAG_FILE_INIT, FLAG_FILE_PRE_INIT, INIT_D_DIR};
use crate::context::Context;
use crate::engine::{exists_answer, Engine};
use crate::host::env_get;
use crate::paths::{join_path, path_join};
use crate::text::{copy_str, join, join_strings, push_str, push_string, trim, trim_spec};
use crate::vars::{getter_agrees, opt_view};

verus! {

/// `r` is the way to obtain the configuration that `arg` names.
pub open spec fn load_matches(ctx: Context, arg: ConfigArg, r: ConfigLoad) -> bool {
    match arg {
        ConfigArg::File(p) => r matches ConfigLoad::FromFile(q) && q@ == p@,
        ConfigArg::Config(n) => r matches ConfigLoad::FromFile(q) && q@ == ctx.config_file_path(n@),
        ConfigArg::Image(i) => r matches ConfigLoad::Ready(c) && c.is_blank() && (c.source matches SourceV1::Image(j) && j@ == i@),
        ConfigArg::Nix(p, s) => r matches ConfigLoad::Ready(c) && c.is_blank()
            && (c.source matches SourceV1::Nix(q, t) && q@ == p@ && opt_view(t) == opt_view(s)),
    }
}

/// How to obtain the configuration that the command line names.
pub fn load_config_arg(ctx: &Context, arg: &ConfigArg) -> (r: ConfigLoad)
    ensures
        load_matches(*ctx, *arg, r),
{
    let copy = match arg {
        ConfigArg::File(p) => ConfigArg::File(copy_str(p.as_str())),
        ConfigArg::Config(n) => ConfigArg::Config(copy_str(n.as_str())),
        ConfigArg::Image(i) => ConfigArg::Image(copy_str(i.as_str())),
        ConfigArg::Nix(p, s) => ConfigArg::Nix(copy_str(p.as_str()), match s {
            Some(x) => Some(copy_str(x.as_str())),
            None => None,
        }),
    };
    copy.into_config(ctx)
}

/// The header of the scripts run on init.
pub open spec fn script_header() -> Seq<char> {
    "#!/bin/sh\nset -e\n"@
}

/// An init script from a configured command, when there is one.
pub open spec fn command_script(file: Seq<char>, cmd: Option<String>) -> Seq<(Seq<char>, Seq<char>)> {
    match cmd {
        Some(s) => if s@.len() > 0 {
            seq![(path_join(INIT_D_DIR@, file), script_header() + s@)]
        } else {
            Seq::empty()
        },
        None => Seq::empty(),
    }
}

/// The script that gives the user the volumes of `persist_user`.
pub open spec fn chown_script(vols: Seq<(String, String)>) -> Seq<(Seq<char>, Seq<char>)> {
    if vols.len() > 0 {
        seq![(path_join(INIT_D_DIR@, "00_chown_persist.sh"@),
            "#!/bin/sh\nset -e\n\nasroot chown \"$USER:$USER\" "@ + join(vols.map_values(|p: (String, String)| p.1@), " "@) + "\n"@)]
    } else {
        Seq::empty()
    }
}

/// The scripts written into a new container (path, text), in order: the
/// command to run before the others, the one that gives the user the
/// volumes of `persist_user`, the command to run after the others.
pub open spec fn init_scripts(cfg: ConfigV1) -> Seq<(Seq<char>, Seq<char>)> {
    command_script("01_on_init_pre.sh"@, cfg.on_init_pre) + chown_script(cfg.persist_user@) + command_script("99_on_init_post.sh"@, cfg.on_init_post)
}

/// The model of a list of scripts.
pub open spec fn scripts_view(v: Seq<(String, String)>) -> Seq<(Seq<char>, Seq<char>)> {
    v.map_values(|p: (String, String)| (p.0@, p.1@))
}

fn push_command_script(v: &mut Vec<(String, String)>, file: &str, cmd: &Option<String>)
    ensures
        scripts_view(final(v)@) == scripts_view(old(v)@) + command_script(file@, *cmd),
{
    match cmd {
        Some(s) => if !s.as_str().is_empty() {
            let mut text = copy_str("#!/bin/sh\nset -e\n");
            push_str(&mut text, s.as_str());
            v.push((join_path(INIT_D_DIR, file), text));
            assert(scripts_view(v@) =~= scripts_view(old(v)@) + command_script(file@, *cmd));
        } else {
            assert(scripts_view(v@) =~= scripts_view(old(v)@) + command_script(file@, *cmd));
        },
        None => {
            assert(scripts_view(v@) =~= scripts_view(old(v)@) + command_script(file@, *cmd));
        },
    }
}

/// The scripts written into a new container (see `init_scripts`).
pub fn init_scripts_of(cfg: &ConfigV1) -> (r: Vec<(String, String)>)
    ensures
        scripts_view(r@) == init_scripts(*cfg),
{
    let mut r: Vec<(String, String)> = Vec::new();
    assert(scripts_view(r@) =~= Seq::<(Seq<char>, Seq<char>)>::empty());
    // the command to run before all other scripts
    push_command_script(&mut r, "01_on_init_pre.sh", &cfg.on_init_pre);
    let ghost mid = scripts_view(r@);
    if cfg.persist_user.len() > 0 {
        let mut paths: Vec<String> = Vec::new();
        let mut i: usize = 0;
        while i < cfg.persist_user.len()
            invariant
                i <= cfg.persist_user.len(),
                paths.deep_view() == cfg.persist_user@.take(i as int).map_values(|p: (String, String)| p.1@),
            decreases cfg.persist_user.len() - i,
        {
            push_string(&mut paths, cfg.persist_user[i].1.as_str());
            i = i + 1;
            assert(paths.deep_view() =~= cfg.persist_user@.take(i as int).map_values(|p: (String, String)| p.1@));
        }
        assert(cfg.persist_user@.take(cfg.persist_user.len() as int) =~= cfg.persist_user@);
        let mut text = copy_str("#!/bin/sh\nset -e\n\nasroot chown \"$USER:$USER\" ");
        let joined = join_strings(&paths, " ");
        push_str(&mut text, joined.as_str());
        push_str(&mut text, "\n");
        r.push((join_path(INIT_D_DIR, "00_chown_persist.sh"), text));
    }
    assert(scripts_view(r@) =~= mid + chown_script(cfg.persist_user@));
    // the command to run after all other scripts
    push_command_script(&mut r, "99_on_init_post.sh", &cfg.on_init_post);
    r
}

/// Engine arguments that write the standard input into `file` of `container`.
pub open spec fn write_args(container: Seq<char>, file: Seq<char>) -> Seq<Seq<char>> {
    seq!["exec"@, "-i"@, "--user"@, "root"@, container, "tee"@, file]
}

/// Engine arguments that test whether `file` exists in `container`.
pub open spec fn flag_args(container: Seq<char>, file: Seq<char>) -> Seq<Seq<char>> {
    seq!["exec"@, container, "test"@, "-f"@, file]
}

/// The answer of a test for a file in the container: 0 means yes, 1 no,
/// 125 that the container has exited; any other code is unknown.
pub open spec fn flag_answer(code: u8) -> Result<bool, StartFault> {
    if code == 0 {
        Ok(true)
    } else if code == 1 {
        Ok(false)
    } else if code == 125 {
        Err(StartFault::ContainerExited)
    } else {
        Err(StartFault::InitUnknown(code))
    }
}

fn strings3(a: &str, b: &str, c: &str) -> (r: Vec<String>)
    ensures
        r.deep_view() == seq![a@, b@, c@],
{
    let mut r: Vec<String> = Vec::new();
    push_string(&mut r, a);
    push_string(&mut r, b);
    push_string(&mut r, c);
    assert(r.deep_view() =~= seq![a@, b@, c@]);
    r
}

/// The arguments that write `file` into `container`.
pub fn write_file_args(container: &str, file: &str) -> (r: Vec<String>)
    ensures
        r.deep_view() == write_args(container@, file@),
{
    let mut r = strings3("exec", "-i", "--user");
    push_string(&mut r, "root");
    push_string(&mut r, container);
    push_string(&mut r, "tee");
    push_string(&mut r, file);
    assert(r.deep_view() =~= write_args(container@, file@));
    r
}

/// The arguments that test for `file` in `container`.
pub fn flag_check_args(container: &str, file: &str) -> (r: Vec<String>)
    ensures
        r.deep_view() == flag_args(container@, file@),
{
    let mut r: Vec<String> = Vec::new();
    push_string(&mut r, "exec");
    push_string(&mut r, container);
    push_string(&mut r, "test");
    push_string(&mut r, "-f");
    push_string(&mut r, file);
    assert(r.deep_view() =~= flag_args(container@, file@));
    r
}

/// Whether a file exists in the container, from the exit code of the test
/// (see `flag_answer`); code 127 (the test command is missing) is not an answer.
pub fn container_file_exists(code: u8) -> (r: Result<bool, StartError>)
    requires
        code != 127,
    ensures
        match flag_answer(code) {
            Ok(b) => r == Ok::<bool, StartError>(b),
            Err(f) => r matches Err(e) && e@ == f,
        },
{
    if code == 0 {
        Ok(true)
    } else if code == 1 {
        Ok(false)
    } else if code == 125 {
        Err(StartError::ContainerExited)
    } else {
        // this really should not happen unless something breaks
        Err(StartError::InitUnknown(code))
    }
}

/// Where a start stands.
#[derive(Debug)]
pub enum StartState {
    /// Nothing done yet.
    Start,
    /// Waiting for the containers of the current directory.
    AwaitCwd,
    /// Waiting for the configuration.
    AwaitConfig,
    /// Waiting for the check that no container has the name.
    AwaitExists(Prepared),
    /// Waiting for the engine arguments that run the container.
    AwaitBuild(Prepared),
    /// Waiting for the check that the image exists (with the run arguments).
    AwaitImage(Prepared, Vec<String>),
    /// Waiting for the image to be pulled (with the run arguments).
    AwaitPull(Prepared, Vec<String>),
    /// Waiting for the container to run.
    AwaitRun(Prepared),
    /// Waiting for the first of these scripts to be written into the container.
    AwaitWrite(Prepared, String, Vec<(String, String)>),
    /// Waiting for the container to be ready for initialization.
    AwaitPreInit(Prepared, String),
    /// Waiting for the removal of the flag that starts initialization.
    AwaitRemove(Prepared, String),
    /// Waiting for the container to be initialized.
    AwaitInit(Prepared, String),
    /// Nothing more to do.
    Done,
}

/// The answer to the last action.
#[derive(Debug)]
pub enum StartInput {
    /// Start.
    Begin,
    /// Names of the containers of the current directory.
    CwdContainers(Vec<String>),
    /// The configuration.
    Config(ConfigV1),
    /// Exit code of the check that the name is taken.
    ExistsCode(u8),
    /// What the host tells of itself, to build the engine arguments that
    /// run the container.
    Facts(HostFacts),
    /// Exit code of the check that the image exists.
    ImageCode(u8),
    /// Whether the image was pulled.
    Pulled(bool),
    /// What running the container gave.
    RunOutput(CommandOutput),
    /// Exit code of writing a script.
    Written(u8),
    /// Exit code of the test for a flag file.
    FlagCode(u8),
    /// The flag that starts initialization was removed.
    Removed,
}

/// What to do next.
#[derive(Debug)]
pub enum StartAction {
    /// List the containers of the current directory (engine arguments).
    ListCwd(Vec<String>),
    /// Obtain the configuration.
    Load(ConfigLoad),
    /// Run this host script in place of the start, with the directory and the
    /// name of the configuration.
    RunHostScript(String, Option<String>, Option<String>),
    /// Check whether a container has the name (engine arguments).
    CheckExists(Vec<String>),
    /// Gather what the host tells of itself (see `HostFacts`); the engine
    /// arguments that run the container are built from it (see `run_args`).
    Build,
    /// Only show the command that would run the container (engine arguments).
    ShowRun(Vec<String>),
    /// Check whether the image exists (engine arguments).
    CheckImage(Vec<String>),
    /// Pull the image, interactively (engine arguments).
    Pull(Vec<String>),
    /// Run the container (engine arguments); its output is the id.
    Run(Vec<String>),
    /// Write the text into the container (engine arguments, text).
    WriteFile(Vec<String>, String),
    /// Wait this many milliseconds, then test for a flag file (engine arguments).
    CheckFlag(Vec<String>, u32),
    /// Remove the flag that starts initialization (engine arguments).
    RemoveFlag(Vec<String>),
    /// Open a shell in the container of this name.
    EnterShell(String),
    /// Print the name of the container.
    PrintName(String),
    /// The start failed.
    Fail(StartError),
}

/// The start failed with `f`.
pub open spec fn start_fails(r: (StartState, StartAction), f: StartFault) -> bool {
    r.0 is Done && (r.1 matches StartAction::Fail(e) && e@ == f)
}

/// After the run of container `id`: write the first of the scripts `rest`,
/// or when none is left test whether the container is ready for
/// initialization.
pub open spec fn writes_step(p: Prepared, id: Seq<char>, rest: Seq<(Seq<char>, Seq<char>)>, r: (StartState, StartAction)) -> bool {
    if rest.len() == 0 {
        &&& r.0 matches StartState::AwaitPreInit(q, i) && q == p && i@ == id
        &&& r.1 matches StartAction::CheckFlag(a, d) && a.deep_view() == flag_args(id, FLAG_FILE_PRE_INIT@) && d == 0
    } else {
        &&& r.0 matches StartState::AwaitWrite(q, i, v) && q == p && i@ == id && scripts_view(v@) == rest
        &&& r.1 matches StartAction::WriteFile(a, c) && a.deep_view() == write_args(id, rest[0].0) && c@ == rest[0].1
    }
}

/// Test again, after `delay` milliseconds, for `flag` in container `id`.
pub open spec fn poll_step(p: Prepared, id: Seq<char>, flag: Seq<char>, delay: u32, init: bool, r: (StartState, StartAction)) -> bool {
    &&& if init {
        r.0 matches StartState::AwaitInit(q, i) && q == p && i@ == id
    } else {
        r.0 matches StartState::AwaitPreInit(q, i) && q == p && i@ == id
    }
    &&& r.1 matches StartAction::CheckFlag(a, d) && a.deep_view() == flag_args(id, flag) && d == delay
}

/// What follows the preparation of the configuration: its error, or (in a
/// dry run) building the arguments, or else the error of an empty name, or
/// the check that the name is free.
pub open spec fn after_prepare(ctx: Context, res: Result<Prepared, StartError>, r: (StartState, StartAction)) -> bool {
    match res {
        Err(e) => r.0 is Done && r.1 == StartAction::Fail(e),
        Ok(p) => if ctx.dry_run {
            r.0 == StartState::AwaitBuild(p) && r.1 is Build
        } else if p.name@.len() == 0 {
            r.0 is Done && r.1 == StartAction::Fail(StartError::NameEmpty)
        } else {
            r.0 == StartState::AwaitExists(p) && (r.1 matches StartAction::CheckExists(a)
                && a.deep_view() == ctx.engine.spec_container_exists_args(p.name@))
        },
    }
}

/// The step on the configuration `cfg`: run its host script in place of the
/// start, unless the script is already running (its variable is set); else
/// name the container, prepare the configuration with some numbers drawn for
/// its references (one per reference), and go on.
pub open spec fn config_step(ctx: Context, cli: CmdStartArgs, cfg: ConfigV1, envs: spec_fn(Seq<char>) -> Option<Seq<char>>, r: (StartState, StartAction)) -> bool {
    if cfg.host_pre_init is Some && envs(ENV_EXE_PATH@) is None {
        r.0 is Done && (r.1 matches StartAction::RunHostScript(s, d, n) && s@ == "#!/bin/sh\n"@ + cfg.host_pre_init->0@
            && opt_view(d) == crate::commands::start::prepare::config_dir_of(cfg) && opt_view(n) == opt_view(cfg.name))
    } else {
        exists|name: Seq<char>, nums: Numbers, res: Result<Prepared, StartError>|
            start_name_ok(cli, cfg, name, envs)
            && #[trigger] prepared_from(res, cfg, cli, name, start_lookup(ctx, name, cfg, nums, envs))
            && after_prepare(ctx, res, r)
    }
}

fn flag_next(p: Prepared, id: String, flag: &str, delay: u32, init: bool) -> (r: (StartState, StartAction))
    ensures
        poll_step(p, id@, flag@, delay, init, r),
{
    let a = flag_check_args(id.as_str(), flag);
    if init {
        (StartState::AwaitInit(p, id), StartAction::CheckFlag(a, delay))
    } else {
        (StartState::AwaitPreInit(p, id), StartAction::CheckFlag(a, delay))
    }
}

fn write_next(p: Prepared, id: String, rest: Vec<(String, String)>) -> (r: (StartState, StartAction))
    ensures
        writes_step(p, id@, scripts_view(rest@), r),
        r.0 matches StartState::AwaitWrite(_, _, v) ==> v.len() > 0,
{
    if rest.len() == 0 {
        flag_next(p, id, FLAG_FILE_PRE_INIT, 0, false)
    } else {
        let a = write_file_args(id.as_str(), rest[0].0.as_str());
        let c = copy_str(rest[0].1.as_str());
        (StartState::AwaitWrite(p, id, rest), StartAction::WriteFile(a, c))
    }
}

fn config_next<E: Fn(&str) -> Option<String>>(ctx: &Context, cli_args: &CmdStartArgs, cfg: ConfigV1, env: &E) -> (r: (StartState, StartAction))
    requires
        forall|x: &str| #[trigger] env.requires((x,)),
    ensures
        !(r.0 is AwaitWrite),
        forall|envs: spec_fn(Seq<char>) -> Option<Seq<char>>| getter_agrees(*env, envs) ==> config_step(*ctx, *cli_args, cfg, envs, r),
{
    let ghost original = cfg;
    if let Some(pre) = &cfg.host_pre_init {
        // the variable is set while the script runs, which avoids a loop
        if env_get(env, ENV_EXE_PATH).is_none() {
            let mut script = copy_str("#!/bin/sh\n");
            push_str(&mut script, pre.as_str());
            let dir = match &cfg.path {
                Some(p) => Some(crate::commands::start::prepare::parent_of(p.as_str())),
                None => None,
            };
            let name = match &cfg.name {
                Some(n) => Some(copy_str(n.as_str())),
                None => None,
            };
            return (StartState::Done, StartAction::RunHostScript(script, dir, name));
        }
    }
    let name = start_name(cli_args, &cfg, env);
    let ghost name_view = name@;
    let nums = draw_numbers(&cfg);
    let res = prepare_config(ctx, cli_args, cfg, name, &nums, env);
    let ghost res_copy = res;
    let r = match res {
        Err(e) => (StartState::Done, StartAction::Fail(e)),
        Ok(p) => if ctx.dry_run {
            (StartState::AwaitBuild(p), StartAction::Build)
        } else if p.name.as_str().is_empty() {
            // the engine takes no empty name
            (StartState::Done, StartAction::Fail(StartError::NameEmpty))
        } else {
            let a = ctx.engine.container_exists_args(p.name.as_str());
            (StartState::AwaitExists(p), StartAction::CheckExists(a))
        },
    };
    proof {
        assert forall|envs: spec_fn(Seq<char>) -> Option<Seq<char>>| getter_agrees(*env, envs) implies config_step(*ctx, *cli_args, original, envs, r) by {
            if !(original.host_pre_init is Some && envs(ENV_EXE_PATH@) is None) {
                assert(start_name_ok(*cli_args, original, name_view, envs));
                assert(prepared_from(res_copy, original, *cli_args, name_view, start_lookup(*ctx, name_view, original, nums, envs)));
                assert(after_prepare(*ctx, res_copy, r));
            }
        }
    }
    r
}

/// After the engine arguments that run the container were built (`res`):
/// the error, or (in a dry run) showing them, or else the check that the
/// image exists.
pub open spec fn built_step(ctx: Context, p: Prepared, res: Result<Vec<String>, StartError>, r: (StartState, StartAction)) -> bool {
    match res {
        Err(e) => r.0 is Done && r.1 == StartAction::Fail(e),
        Ok(v) => if ctx.dry_run {
            r.0 is Done && r.1 == StartAction::ShowRun(v)
        } else {
            r.0 == StartState::AwaitImage(p, v) && (r.1 matches StartAction::CheckImage(a)
                && a.deep_view() == ctx.engine.spec_image_exists_args(image_of(p.config.source)))
        },
    }
}

/// One step of starting a container: the configuration named on the command
/// line, in a directory where no container runs yet; the container gets the
/// name given on the command line, or that of the configuration, or a
/// generated one; the configuration is expanded and merged with the command
/// line; the name must be free (not checked in a dry run); the image is
/// pulled when missing; the init scripts are written into the running
/// container, which is then awaited until initialized; at last a shell is
/// entered (`--enter`, when standard output is a terminal: `stdout_tty`) or
/// the name is printed. The engine arguments that run the container are
/// those of `run_args`. `env` answers the variables of the environment,
/// `probe` what is found at paths of the host.
pub fn start_container<E: Fn(&str) -> Option<String>, P: Fn(&str) -> PathKind>(ctx: &Context, cli_args: &CmdStartArgs, env: &E, probe: &P,
    stdout_tty: bool, state: StartState, input: StartInput) -> (r: (StartState, StartAction))
    requires
        forall|x: &str| #[trigger] env.requires((x,)),
        forall|x: &str| #[trigger] probe.requires((x,)),
        state matches StartState::AwaitWrite(_, _, v) ==> v.len() > 0,
        input matches StartInput::FlagCode(c) ==> c != 127,
        state matches StartState::AwaitBuild(p) ==> (input is Facts ==> p.config.source is Image),
        state is AwaitBuild && input is Facts && !gpus_of(cli_args.gpus).contains(0u8)
            ==> forall|k: int| 0 <= k < gpus_of(cli_args.gpus).len() ==> gpus_of(cli_args.gpus)[k] <= 128,
        state matches StartState::AwaitPreInit(_, id) ==> id@.len() > 0,
    ensures
        r.0 matches StartState::AwaitWrite(_, _, v) ==> v.len() > 0,
        match (state, input) {
            (StartState::Start, StartInput::Begin) => r.0 is AwaitCwd
                && (r.1 matches StartAction::ListCwd(a) && a.deep_view() == ctx.engine.spec_list_args(ctx.cwd_labels())),
            (StartState::AwaitCwd, StartInput::CwdContainers(l)) => if l.len() > 0 {
                start_fails(r, StartFault::RunningHere(join(l.deep_view(), " "@)))
            } else {
                r.0 is AwaitConfig && (r.1 matches StartAction::Load(x) && load_matches(*ctx, cli_args.config, x))
            },
            (StartState::AwaitConfig, StartInput::Config(cfg)) =>
                forall|envs: spec_fn(Seq<char>) -> Option<Seq<char>>| getter_agrees(*env, envs) ==> config_step(*ctx, *cli_args, cfg, envs, r),
            (StartState::AwaitExists(p), StartInput::ExistsCode(c)) => match exists_answer(c) {
                Some(true) => start_fails(r, StartFault::NameTaken(p.name@)),
                Some(false) => r.0 == StartState::AwaitBuild(p) && r.1 is Build,
                None => r.0 is Done && (r.1 matches StartAction::Fail(StartError::Engine(_))),
            },
            (StartState::AwaitBuild(p), StartInput::Facts(f)) =>
                forall|envs: spec_fn(Seq<char>) -> Option<Seq<char>>, fs: spec_fn(Seq<char>) -> Option<Option<Seq<char>>>|
                    getter_agrees(*env, envs) && probe_agrees(*probe, fs) ==> exists|res: Result<Vec<String>, StartError>|
                        #[trigger] run_outcome(res, *ctx, p.config, *cli_args, p.name@, f, envs, fs) && built_step(*ctx, p, res, r),
            (StartState::AwaitImage(p, v), StartInput::ImageCode(c)) => match exists_answer(c) {
                Some(true) => r.0 == StartState::AwaitRun(p) && r.1 == StartAction::Run(v),
                Some(false) => r.0 == StartState::AwaitPull(p, v) && (r.1 matches StartAction::Pull(a)
                    && a.deep_view() == ctx.engine.spec_image_pull_args(image_of(p.config.source))),
                None => r.0 is Done && (r.1 matches StartAction::Fail(StartError::Engine(_))),
            },
            (StartState::AwaitPull(p, v), StartInput::Pulled(ok)) => if ok {
                r.0 == StartState::AwaitRun(p) && r.1 == StartAction::Run(v)
            } else {
                start_fails(r, StartFault::PullFailed(image_of(p.config.source)))
            },
            (StartState::AwaitRun(p), StartInput::RunOutput(o)) => if o.status.code != Some(0i32) {
                start_fails(r, StartFault::InitFailed(utf8_lossy(o.stderr@)))
            } else {
                writes_step(p, trim_spec(utf8_lossy(o.stdout@)), init_scripts(p.config), r)
            },
            (StartState::AwaitWrite(p, id, v), StartInput::Written(code)) => if code != 0 {
                start_fails(r, StartFault::WriteFailed(scripts_view(v@)[0].0, code))
            } else {
                writes_step(p, id@, scripts_view(v@).drop_first(), r)
            },
            (StartState::AwaitPreInit(p, id), StartInput::FlagCode(c)) => match flag_answer(c) {
                Ok(true) => r.0 matches StartState::AwaitRemove(q, i) && q == p && i@ == id@
                    && (r.1 matches StartAction::RemoveFlag(a) && a.deep_view() == ctx.engine.spec_exec_args(id@, seq!["rm"@, FLAG_FILE_PRE_INIT@])),
                Ok(false) => poll_step(p, id@, FLAG_FILE_PRE_INIT@, 100, false, r),
                Err(f) => start_fails(r, f),
            },
            (StartState::AwaitRemove(p, id), StartInput::Removed) => poll_step(p, id@, FLAG_FILE_INIT@, 0, true, r),
            (StartState::AwaitInit(p, id), StartInput::FlagCode(c)) => match flag_answer(c) {
                Ok(true) => r.0 is Done && if cli_args.enter && stdout_tty {
                    r.1 matches StartAction::EnterShell(n) && n@ == p.name@
                } else {
                    r.1 matches StartAction::PrintName(n) && n@ == p.name@
                },
                Ok(false) => poll_step(p, id@, FLAG_FILE_INIT@, 300, true, r),
                Err(f) => start_fails(r, f),
            },
            _ => start_fails(r, StartFault::Unexpected),
        },
{
    match (state, input) {
        (StartState::Start, StartInput::Begin) => {
            // get any running containers in this directory
            (StartState::AwaitCwd, StartAction::ListCwd(ctx.cwd_containers_args()))
        },
        (StartState::AwaitCwd, StartInput::CwdContainers(l)) => {
            if l.len() > 0 {
                (StartState::Done, StartAction::Fail(StartError::RunningHere(join_strings(&l, " "))))
            } else {
                (StartState::AwaitConfig, StartAction::Load(load_config_arg(ctx, &cli_args.config)))
            }
        },
        (StartState::AwaitConfig, StartInput::Config(cfg)) => config_next(ctx, cli_args, cfg, env),
        (StartState::AwaitExists(p), StartInput::ExistsCode(c)) => {
            match ctx.engine.container_exists(p.name.as_str(), c) {
                Ok(true) => {
                    let n = copy_str(p.name.as_str());
                    (StartState::Done, StartAction::Fail(StartError::NameTaken(n)))
                },
                Ok(false) => (StartState::AwaitBuild(p), StartAction::Build),
                Err(e) => (StartState::Done, StartAction::Fail(StartError::Engine(e))),
            }
        },
        (StartState::AwaitBuild(p), StartInput::Facts(f)) => {
            let res = run_args(ctx, &p.config, cli_args, p.name.as_str(), &f, env, probe);
            let ghost res_copy = res;
            let ghost p_copy = p;
            let r = match res {
                Err(e) => (StartState::Done, StartAction::Fail(e)),
                Ok(v) => if ctx.dry_run {
                    (StartState::Done, StartAction::ShowRun(v))
                } else {
                    let a = match &p.config.source {
                        SourceV1::Image(i) => ctx.engine.image_exists_args(i.as_str()),
                        SourceV1::Nix(path, _) => ctx.engine.image_exists_args(path.as_str()),
                    };
                    (StartState::AwaitImage(p, v), StartAction::CheckImage(a))
                },
            };
            assert(built_step(*ctx, p_copy, res_copy, r));
            proof {
                assert forall|envs: spec_fn(Seq<char>) -> Option<Seq<char>>, fs: spec_fn(Seq<char>) -> Option<Option<Seq<char>>>|
                    getter_agrees(*env, envs) && probe_agrees(*probe, fs) implies exists|res2: Result<Vec<String>, StartError>|
                        #[trigger] run_outcome(res2, *ctx, p_copy.config, *cli_args, p_copy.name@, f, envs, fs) && built_step(*ctx, p_copy, res2, r) by {
                    assert(run_outcome(res_copy, *ctx, p_copy.config, *cli_args, p_copy.name@, f, envs, fs));
                }
            }
            r
        },
        (StartState::AwaitImage(p, v), StartInput::ImageCode(c)) => {
            let image = match &p.config.source {
                SourceV1::Image(i) => copy_str(i.as_str()),
                SourceV1::Nix(path, _) => copy_str(path.as_str()),
            };
            // pull the image interactively if it does not exist
            match ctx.engine.image_exists(image.as_str(), c) {
                Ok(true) => (StartState::AwaitRun(p), StartAction::Run(v)),
                Ok(false) => {
                    let a = ctx.engine.image_pull_args(image.as_str());
                    (StartState::AwaitPull(p, v), StartAction::Pull(a))
                },
                Err(e) => (StartState::Done, StartAction::Fail(StartError::Engine(e))),
            }
        },
        (StartState::AwaitPull(p, v), StartInput::Pulled(ok)) => {
            if ok {
                (StartState::AwaitRun(p), StartAction::Run(v))
            } else {
                let image = match &p.config.source {
                    SourceV1::Image(i) => copy_str(i.as_str()),
                    SourceV1::Nix(path, _) => copy_str(path.as_str()),
                };
                (StartState::Done, StartAction::Fail(StartError::PullFailed(image)))
            }
        },
        (StartState::AwaitRun(p), StartInput::RunOutput(o)) => {
            if !o.status.success() {
                (StartState::Done, StartAction::Fail(StartError::InitFailed(lossy_text(&o.stderr))))
            } else {
                let out = lossy_text(&o.stdout);
                let id = trim(out.as_str());
                let scripts = init_scripts_of(&p.config);
                write_next(p, id, scripts)
            }
        },
        (StartState::AwaitWrite(p, id, v), StartInput::Written(code)) => {
            if code != 0 {
                let f = copy_str(v[0].0.as_str());
                (StartState::Done, StartAction::Fail(StartError::WriteFailed(f, code)))
            } else {
                let mut rest = v;
                rest.remove(0);
                assert(scripts_view(rest@) =~= scripts_view(v@).drop_first());
                write_next(p, id, rest)
            }
        },
        (StartState::AwaitPreInit(p, id), StartInput::FlagCode(c)) => {
            match container_file_exists(c) {
                Ok(true) => {
                    // remove the flag to start initialization
                    let mut cmd: Vec<String> = Vec::new();
                    push_string(&mut cmd, "rm");
                    push_string(&mut cmd, FLAG_FILE_PRE_INIT);
                    assert(cmd.deep_view() =~= seq!["rm"@, FLAG_FILE_PRE_INIT@]);
                    let a = ctx.engine.exec_args(id.as_str(), &cmd);
                    (StartState::AwaitRemove(p, id), StartAction::RemoveFlag(a))
                },
                Ok(false) => flag_next(p, id, FLAG_FILE_PRE_INIT, 100, false),
                Err(e) => (StartState::Done, StartAction::Fail(e)),
            }
        },
        (StartState::AwaitRemove(p, id), StartInput::Removed) => flag_next(p, id, FLAG_FILE_INIT, 0, true),
        (StartState::AwaitInit(p, id), StartInput::FlagCode(c)) => {
            match container_file_exists(c) {
                Ok(true) => {
                    let n = copy_str(p.name.as_str());
                    // entering is ignored when standard output is not a terminal
                    if cli_args.enter && stdout_tty {
                        // launch shell right away
                        (StartState::Done, StartAction::EnterShell(n))
                    } else {
                        (StartState::Done, StartAction::PrintName(n))
                    }
                },
                Ok(false) => flag_next(p, id, FLAG_FILE_INIT, 300, true),
                Err(e) => (StartState::Done, StartAction::Fail(e)),
            }
        },
        _ => (StartState::Done, StartAction::Fail(StartError::Unexpected)),
    }
}

} // verus!
