//! The engine command line that runs a new container.
use vstd::prelude::*;
use crate::cli::CmdStartArgs;
use crate::command_ext::CommandOutput;
use crate::commands::start::{StartError, StartFault};
use crate::commands::start::mounts::{
    audio_result, bus_result, caps_args, gpu_passthrough, gpu_result, gpus_of, mount_additional_mounts, mount_audio,
    mount_session_bus, mount_ssh_agent, mount_wayland, mounts_result, opt_strs, or_false, resolve_capabilities, run_dir,
    run_dir_exec, ssh_result, wayland_result,
};
use crate::commands::start::naming::{get_hostname, hostname_result};
use crate::commands::start::terminfo::{find_terminfo, listing_text, terminfo_dirs, terminfo_mounted};
use crate::config::{ConfigV1, SourceV1};
use crate::consts::{
    APP_NAME, ARCAM_EXE, CONTAINER_LABEL_CONTAINER_DIR, CONTAINER_LABEL_HOST_DIR, CONTAINER_LABEL_USER_SHELL, ENV_VAR_PREFIX,
    VERSION, WS_DIR,
};
use crate::context::Context;
use crate::engine::Engine;
use crate::host::{env_get, probe_agrees, PathKind};
use crate::paths::{file_name, join_path, last_component, path_join};
use crate::text::{concat, concat3, concat4, concat5, copy_str, dec_text, push_all, push_owned, push_string, u64_to_string};
use crate::vars::getter_agrees;

verus! {

/// What the host tells of itself before a start.
#[derive(Debug, Clone)]
pub struct HostFacts {
    /// Path of the running executable, mounted into the container.
    pub exe_path: String,
    /// Output of the `hostname` command (`None` when it could not run).
    pub hostname: Option<CommandOutput>,
    /// Output of the terminfo tool listing its directories (`None` when it could not run).
    pub terminfo: Option<CommandOutput>,
    /// Output of the check that gvisor (`runsc`) is in the path (`None` when it could not run).
    pub runsc: Option<CommandOutput>,
    /// Entry names of the directory of GPU devices (`None` when it could not be read).
    pub dri: Option<Vec<String>>,
}

/// gvisor was found in the path.
pub open spec fn runsc_found(o: Option<CommandOutput>) -> bool {
    o matches Some(out) && out.status.code == Some(0i32)
}

/// The fixed arguments every container starts with.
pub open spec fn base_args() -> Seq<Seq<char>> {
    seq!["run"@, "-d"@, "--rm"@, "--security-opt=label=disable"@, "--user=root"@, "--init"@, "--detach-keys="@]
}

/// The arguments that run the container under gvisor.
pub open spec fn gvisor_args() -> Seq<Seq<char>> {
    seq!["--runtime=runsc"@, "--runtime-flag"@, "ignore-cgroups"@]
}

/// The directory of the projects inside the container: `ws` in the home.
pub open spec fn projects_dir(ctx: Context) -> Seq<char> {
    path_join(ctx.user_home@, WS_DIR@)
}

/// The directory of the current project inside the container.
pub open spec fn project_dir(ctx: Context) -> Seq<char> {
    path_join(projects_dir(ctx), last_component(ctx.cwd@))
}

/// The shell of the user in the container: the configured one, else bash.
pub open spec fn shell_of(cfg: ConfigV1) -> Seq<char> {
    match cfg.shell {
        Some(s) => s@,
        None => "/bin/bash"@,
    }
}

/// The name, labels, environment and mounts that identify the container.
pub open spec fn ident_args(ctx: Context, name: Seq<char>, shell: Seq<char>, exe: Seq<char>, host: Seq<char>) -> Seq<Seq<char>> {
    let e = ctx.engine.spec_name();
    let uid = dec_text(ctx.user_id as nat);
    let gid = dec_text(ctx.user_gid as nat);
    seq![
        "--name="@ + name,
        "--label=manager="@ + e,
        "--label="@ + APP_NAME@ + "="@ + VERSION@,
        "--label="@ + CONTAINER_LABEL_HOST_DIR@ + "="@ + ctx.cwd@,
        "--label="@ + CONTAINER_LABEL_CONTAINER_DIR@ + "="@ + project_dir(ctx),
        "--label="@ + CONTAINER_LABEL_USER_SHELL@ + "="@ + shell,
        "--env="@ + APP_NAME@ + "="@ + APP_NAME@,
        "--env="@ + ENV_VAR_PREFIX@ + "VERSION="@ + VERSION@,
        "--env=manager="@ + e,
        "--env=CONTAINER_ENGINE="@ + e,
        "--env=CONTAINER_NAME="@ + name,
        "--env=HOST_USER="@ + ctx.user@,
        "--env=HOST_USER_UID="@ + uid,
        "--env=HOST_USER_GID="@ + gid,
        "--env=XDG_RUNTIME_DIR="@ + run_dir(ctx.user_id),
        "--volume="@ + ctx.cwd@ + ":"@ + project_dir(ctx),
        "--volume="@ + exe + ":"@ + ARCAM_EXE@ + ":ro,nocopy"@,
        "--entrypoint="@ + ARCAM_EXE@,
        "--hostname="@ + host
    ]
}

/// Arguments that keep the ids, limits and time zone of the host.
pub open spec fn host_args() -> Seq<Seq<char>> {
    seq!["--userns=keep-id"@, "--ulimit=host"@, "--tz=local"@]
}

/// The environment variables of the configuration.
pub open spec fn env_args(env: Seq<(String, String)>) -> Seq<Seq<char>> {
    env.map_values(|p: (String, String)| "--env="@ + p.0@ + "="@ + p.1@)
}

/// The named volumes of the configuration.
pub open spec fn volume_args(vols: Seq<(String, String)>) -> Seq<Seq<char>> {
    vols.map_values(|p: (String, String)| "--mount=type=volume,source="@ + p.0@ + ",destination="@ + p.1@)
}

/// No network unless the configuration allows it.
pub open spec fn network_args(network: bool) -> Seq<Seq<char>> {
    if !network {
        seq!["--network=none"@]
    } else {
        Seq::empty()
    }
}

/// Each port (container, host) published for TCP and for UDP.
pub open spec fn port_args(ports: Seq<(u32, u32)>) -> Seq<Seq<char>>
    decreases ports.len(),
{
    if ports.len() == 0 {
        Seq::empty()
    } else {
        let (c, h) = ports.last();
        port_args(ports.drop_last()) + seq![
            "--publish="@ + dec_text(h as nat) + ":"@ + dec_text(c as nat) + "/tcp"@,
            "--publish="@ + dec_text(h as nat) + ":"@ + dec_text(c as nat) + "/udp"@
        ]
    }
}

/// The skeleton directory, when one is configured.
pub open spec fn skel_args(skel: Option<String>) -> Seq<Seq<char>> {
    match skel {
        Some(s) => seq!["--volume="@ + s@ + ":/etc/skel:ro"@],
        None => Seq::empty(),
    }
}

/// The image of an image source.
pub open spec fn image_of(s: SourceV1) -> Seq<char> {
    match s {
        SourceV1::Image(i) => i@,
        SourceV1::Nix(p, _) => p@,
    }
}

/// The arguments up to the terminfo mounts: the fixed ones, gvisor, the
/// identity, the host settings, the environment, the capabilities and the
/// additional mounts; or the first error among the gvisor check, the host
/// name and the mounts.
pub open spec fn run_head(ctx: Context, cfg: ConfigV1, cli: CmdStartArgs, name: Seq<char>, facts: HostFacts,
    envs: spec_fn(Seq<char>) -> Option<Seq<char>>, fs: spec_fn(Seq<char>) -> Option<Option<Seq<char>>>) -> Result<Seq<Seq<char>>, StartFault> {
    if cfg.gvisor && !runsc_found(facts.runsc) {
        Err(StartFault::NoGvisor)
    } else {
        match hostname_result(envs("HOSTNAME"@), facts.hostname) {
            Err(f) => Err(f),
            Ok(h) => match mounts_result(projects_dir(ctx), cli.mount.deep_view(), fs) {
                Err(f) => Err(f),
                Ok(m) => Ok(base_args() + (if cfg.gvisor { gvisor_args() } else { Seq::empty() })
                    + ident_args(ctx, name, shell_of(cfg), facts.exe_path@, h) + host_args() + env_args(cfg.env@)
                    + caps_args(cli.capabilities.deep_view()) + m),
            },
        }
    }
}

/// The devices and sockets of the host passed through, as the command line
/// asks, or the first error.
pub open spec fn run_passthrough(ctx: Context, cli: CmdStartArgs, facts: HostFacts,
    envs: spec_fn(Seq<char>) -> Option<Seq<char>>, fs: spec_fn(Seq<char>) -> Option<Option<Seq<char>>>) -> Result<Seq<Seq<char>>, StartFault> {
    match audio_result(ctx.user_id, or_false(cli.pipewire), or_false(cli.pulseaudio), envs, fs) {
        Err(f) => Err(f),
        Ok(a) => match wayland_result(ctx.user_id, ctx.user_home@, or_false(cli.wayland), envs, fs) {
            Err(f) => Err(f),
            Ok(w) => match gpu_result(gpus_of(cli.gpus), opt_strs(facts.dri), fs) {
                Err(f) => Err(f),
                Ok(g) => match ssh_result(ctx.user_id, or_false(cli.ssh_agent), envs, fs) {
                    Err(f) => Err(f),
                    Ok(s) => match bus_result(ctx.user_id, or_false(cli.session_bus), envs, fs) {
                        Err(f) => Err(f),
                        Ok(b) => Ok(a + w + g + s + b),
                    },
                },
            },
        },
    }
}

/// The arguments after the terminfo mounts, given the pass-through ones.
pub open spec fn run_tail(cfg: ConfigV1, passthrough: Seq<Seq<char>>) -> Seq<Seq<char>> {
    volume_args(cfg.persist@ + cfg.persist_user@) + network_args(cfg.network) + passthrough + port_args(cfg.ports@)
        + skel_args(cfg.skel) + cfg.engine_args.deep_view() + seq![image_of(cfg.source), "init"@]
}

/// The terminfo directories found on the host.
pub open spec fn host_terminfo(facts: HostFacts, envs: spec_fn(Seq<char>) -> Option<Seq<char>>, fs: spec_fn(Seq<char>) -> Option<Option<Seq<char>>>) -> Seq<Seq<char>> {
    terminfo_dirs(listing_text(facts.terminfo), envs("TERMINFO_DIRS"@), fs)
}

/// `v` is `head`, then arguments that mount the terminfo directories `dirs`,
/// then `tail`.
pub open spec fn run_args_made_of(v: Seq<Seq<char>>, head: Seq<Seq<char>>, dirs: Seq<Seq<char>>, tail: Seq<Seq<char>>) -> bool {
    &&& v.len() >= head.len() + tail.len()
    &&& v.subrange(0, head.len() as int) == head
    &&& terminfo_mounted(dirs, v.subrange(head.len() as int, v.len() - tail.len()))
    &&& v.subrange(v.len() - tail.len(), v.len() as int) == tail
}

/// The outcome of building the command line of a start, whatever names the
/// terminfo mount points got: the first error (head, terminfo, pass-through),
/// or the arguments.
pub open spec fn run_outcome(r: Result<Vec<String>, StartError>, ctx: Context, cfg: ConfigV1, cli: CmdStartArgs, name: Seq<char>, facts: HostFacts,
    envs: spec_fn(Seq<char>) -> Option<Seq<char>>, fs: spec_fn(Seq<char>) -> Option<Option<Seq<char>>>) -> bool {
    match run_head(ctx, cfg, cli, name, facts, envs, fs) {
        Err(f) => r matches Err(e) && e@ == f,
        Ok(head) => if host_terminfo(facts, envs, fs).len() == 0 {
            r matches Err(e) && e@ == StartFault::NoTerminfo
        } else {
            match run_passthrough(ctx, cli, facts, envs, fs) {
                Err(f) => r matches Err(e) && e@ == f,
                Ok(p) => r matches Ok(v) && run_args_made_of(v.deep_view(), head, host_terminfo(facts, envs, fs), run_tail(cfg, p)),
            }
        },
    }
}

fn push_ident(cmd: &mut Vec<String>, ctx: &Context, name: &str, shell: &str, exe: &str, host: &str)
    ensures
        final(cmd).deep_view() == old(cmd).deep_view() + ident_args(*ctx, name@, shell@, exe@, host@),
{
    let ghost start = cmd.deep_view();
    let e = ctx.engine.name();
    let uid = u64_to_string(ctx.user_id as u64);
    let gid = u64_to_string(ctx.user_gid as u64);
    let projects = join_path(ctx.user_home.as_str(), WS_DIR);
    let base = file_name(ctx.cwd.as_str());
    let project = join_path(projects.as_str(), base.as_str());
    let rd = run_dir_exec(ctx.user_id);
    push_owned(cmd, concat("--name=", name));
    push_owned(cmd, concat("--label=manager=", e));
    push_owned(cmd, concat4("--label=", APP_NAME, "=", VERSION));
    push_owned(cmd, concat4("--label=", CONTAINER_LABEL_HOST_DIR, "=", ctx.cwd.as_str()));
    push_owned(cmd, concat4("--label=", CONTAINER_LABEL_CONTAINER_DIR, "=", project.as_str()));
    push_owned(cmd, concat4("--label=", CONTAINER_LABEL_USER_SHELL, "=", shell));
    push_owned(cmd, concat4("--env=", APP_NAME, "=", APP_NAME));
    push_owned(cmd, concat4("--env=", ENV_VAR_PREFIX, "VERSION=", VERSION));
    push_owned(cmd, concat("--env=manager=", e));
    push_owned(cmd, concat("--env=CONTAINER_ENGINE=", e));
    push_owned(cmd, concat("--env=CONTAINER_NAME=", name));
    push_owned(cmd, concat("--env=HOST_USER=", ctx.user.as_str()));
    push_owned(cmd, concat("--env=HOST_USER_UID=", uid.as_str()));
    push_owned(cmd, concat("--env=HOST_USER_GID=", gid.as_str()));
    push_owned(cmd, concat("--env=XDG_RUNTIME_DIR=", rd.as_str()));
    push_owned(cmd, concat4("--volume=", ctx.cwd.as_str(), ":", project.as_str()));
    // mount the executable inside container but do not copy it as it is slow
    push_owned(cmd, concat5("--volume=", exe, ":", ARCAM_EXE, ":ro,nocopy"));
    push_owned(cmd, concat("--entrypoint=", ARCAM_EXE));
    push_owned(cmd, concat("--hostname=", host));
    assert(cmd.deep_view() =~= start + ident_args(*ctx, name@, shell@, exe@, host@));
}

fn push_strings(cmd: &mut Vec<String>, parts: Ghost<Seq<Seq<char>>>, a: &str, b: &str, c: &str)
    requires
        parts@ == seq![a@, b@, c@],
    ensures
        final(cmd).deep_view() == old(cmd).deep_view() + parts@,
{
    push_string(cmd, a);
    push_string(cmd, b);
    push_string(cmd, c);
    assert(cmd.deep_view() =~= old(cmd).deep_view() + parts@);
}

/// Builds the arguments up to the terminfo mounts (see `run_head`).
fn run_head_args<E: Fn(&str) -> Option<String>, P: Fn(&str) -> PathKind>(ctx: &Context, cfg: &ConfigV1, cli_args: &CmdStartArgs, name: &str,
    facts: &HostFacts, env: &E, probe: &P) -> (r: Result<Vec<String>, StartError>)
    requires
        forall|x: &str| #[trigger] env.requires((x,)),
        forall|x: &str| #[trigger] probe.requires((x,)),
    ensures
        forall|envs: spec_fn(Seq<char>) -> Option<Seq<char>>, fs: spec_fn(Seq<char>) -> Option<Option<Seq<char>>>|
            getter_agrees(*env, envs) && probe_agrees(*probe, fs) ==>
            match run_head(*ctx, *cfg, *cli_args, name@, *facts, envs, fs) {
                Err(f) => r matches Err(e) && e@ == f,
                Ok(h) => r matches Ok(v) && v.deep_view() == h,
            },
{
    let mut cmd: Vec<String> = Vec::new();
    push_string(&mut cmd, "run");
    push_string(&mut cmd, "-d");
    push_string(&mut cmd, "--rm");
    push_string(&mut cmd, "--security-opt=label=disable");
    push_string(&mut cmd, "--user=root");
    // the application is not the init system of the container
    push_string(&mut cmd, "--init");
    // detaching breaks things
    push_string(&mut cmd, "--detach-keys=");
    assert(cmd.deep_view() =~= base_args());
    if cfg.gvisor {
        let found = match &facts.runsc {
            Some(o) => o.status.success(),
            None => false,
        };
        if !found {
            return Err(StartError::NoGvisor);
        }
        push_strings(&mut cmd, Ghost(gvisor_args()), "--runtime=runsc", "--runtime-flag", "ignore-cgroups");
    }
    let ghost g = cmd.deep_view();
    assert(g == base_args() + (if cfg.gvisor { gvisor_args() } else { Seq::<Seq<char>>::empty() }));
    let env_host = env_get(env, "HOSTNAME");
    let host = match &env_host {
        Some(h) => get_hostname(Some(h.as_str()), facts.hostname.as_ref()),
        None => get_hostname(None, facts.hostname.as_ref()),
    };
    let host = match host {
        Ok(h) => h,
        Err(e) => return Err(e),
    };
    let shell = match &cfg.shell {
        Some(s) => copy_str(s.as_str()),
        None => copy_str("/bin/bash"),
    };
    push_ident(&mut cmd, ctx, name, shell.as_str(), facts.exe_path.as_str(), host.as_str());
    push_strings(&mut cmd, Ghost(host_args()), "--userns=keep-id", "--ulimit=host", "--tz=local");
    // add the env vars
    let ghost before_env = cmd.deep_view();
    let mut i: usize = 0;
    while i < cfg.env.len()
        invariant
            i <= cfg.env.len(),
            cmd.deep_view() == before_env + env_args(cfg.env@.take(i as int)),
        decreases cfg.env.len() - i,
    {
        push_owned(&mut cmd, concat4("--env=", cfg.env[i].0.as_str(), "=", cfg.env[i].1.as_str()));
        i = i + 1;
        assert(env_args(cfg.env@.take(i as int)) =~= env_args(cfg.env@.take(i - 1)).push("--env="@ + cfg.env@[i - 1].0@ + "="@ + cfg.env@[i - 1].1@));
    }
    assert(cfg.env@.take(cfg.env.len() as int) =~= cfg.env@);
    resolve_capabilities(cli_args, &mut cmd);
    let projects = join_path(ctx.user_home.as_str(), WS_DIR);
    let ghost before_mounts = cmd.deep_view();
    match mount_additional_mounts(projects.as_str(), cli_args, &mut cmd, probe) {
        Ok(()) => {},
        Err(e) => return Err(e),
    }
    Ok(cmd)
}

/// Adds the named volumes and, unless allowed, no network.
fn push_volumes_network(cmd: &mut Vec<String>, cfg: &ConfigV1)
    ensures
        final(cmd).deep_view() == old(cmd).deep_view() + volume_args(cfg.persist@ + cfg.persist_user@) + network_args(cfg.network),
{
    let ghost start = cmd.deep_view();
    // add all volumes, through mount so that no path is mounted by accident
    let mut i: usize = 0;
    while i < cfg.persist.len()
        invariant
            i <= cfg.persist.len(),
            cmd.deep_view() == start + volume_args(cfg.persist@.take(i as int)),
        decreases cfg.persist.len() - i,
    {
        push_owned(cmd, concat4("--mount=type=volume,source=", cfg.persist[i].0.as_str(), ",destination=", cfg.persist[i].1.as_str()));
        i = i + 1;
        assert(volume_args(cfg.persist@.take(i as int)) =~= volume_args(cfg.persist@.take(i - 1)).push(
            "--mount=type=volume,source="@ + cfg.persist@[i - 1].0@ + ",destination="@ + cfg.persist@[i - 1].1@));
    }
    assert(cfg.persist@.take(cfg.persist@.len() as int) =~= cfg.persist@ + cfg.persist_user@.take(0));
    let mut j: usize = 0;
    while j < cfg.persist_user.len()
        invariant
            j <= cfg.persist_user.len(),
            cmd.deep_view() == start + volume_args(cfg.persist@ + cfg.persist_user@.take(j as int)),
        decreases cfg.persist_user.len() - j,
    {
        push_owned(cmd, concat4("--mount=type=volume,source=", cfg.persist_user[j].0.as_str(), ",destination=", cfg.persist_user[j].1.as_str()));
        j = j + 1;
        assert(cfg.persist@ + cfg.persist_user@.take(j as int) =~= (cfg.persist@ + cfg.persist_user@.take(j - 1)).push(cfg.persist_user@[j - 1]));
        assert(volume_args(cfg.persist@ + cfg.persist_user@.take(j as int)) =~= volume_args(cfg.persist@ + cfg.persist_user@.take(j - 1)).push(
            "--mount=type=volume,source="@ + cfg.persist_user@[j - 1].0@ + ",destination="@ + cfg.persist_user@[j - 1].1@));
    }
    assert(cfg.persist_user@.take(cfg.persist_user.len() as int) =~= cfg.persist_user@);
    // no network unless requested
    if !cfg.network {
        push_string(cmd, "--network=none");
    }
    assert(cmd.deep_view() =~= start + volume_args(cfg.persist@ + cfg.persist_user@) + network_args(cfg.network));
}

/// Builds the pass-through arguments (see `run_passthrough`).
fn run_passthrough_args<E: Fn(&str) -> Option<String>, P: Fn(&str) -> PathKind>(ctx: &Context, cli_args: &CmdStartArgs,
    facts: &HostFacts, env: &E, probe: &P) -> (r: Result<Vec<String>, StartError>)
    requires
        forall|x: &str| #[trigger] env.requires((x,)),
        forall|x: &str| #[trigger] probe.requires((x,)),
        !gpus_of(cli_args.gpus).contains(0u8) ==> forall|k: int| 0 <= k < gpus_of(cli_args.gpus).len() ==> gpus_of(cli_args.gpus)[k] <= 128,
    ensures
        forall|envs: spec_fn(Seq<char>) -> Option<Seq<char>>, fs: spec_fn(Seq<char>) -> Option<Option<Seq<char>>>|
            getter_agrees(*env, envs) && probe_agrees(*probe, fs) ==>
            match run_passthrough(*ctx, *cli_args, *facts, envs, fs) {
                Err(f) => r matches Err(e) && e@ == f,
                Ok(p) => r matches Ok(v) && v.deep_view() == p,
            },
{
    let mut cmd: Vec<String> = Vec::new();
    let ghost s0 = cmd.deep_view();
    match mount_audio(ctx, cli_args, &mut cmd, env, probe) {
        Ok(()) => {},
        Err(e) => return Err(e),
    }
    let ghost s1 = cmd.deep_view();
    match mount_wayland(ctx, cli_args, &mut cmd, env, probe) {
        Ok(()) => {},
        Err(e) => return Err(e),
    }
    let ghost s2 = cmd.deep_view();
    match gpu_passthrough(cli_args, &mut cmd, &facts.dri, probe) {
        Ok(()) => {},
        Err(e) => return Err(e),
    }
    let ghost s3 = cmd.deep_view();
    match mount_ssh_agent(ctx, cli_args, &mut cmd, env, probe) {
        Ok(()) => {},
        Err(e) => return Err(e),
    }
    let ghost s4 = cmd.deep_view();
    match mount_session_bus(ctx, cli_args, &mut cmd, env, probe) {
        Ok(()) => {},
        Err(e) => return Err(e),
    }
    proof {
        assert forall|envs: spec_fn(Seq<char>) -> Option<Seq<char>>, fs: spec_fn(Seq<char>) -> Option<Option<Seq<char>>>|
            getter_agrees(*env, envs) && probe_agrees(*probe, fs) implies
            run_passthrough(*ctx, *cli_args, *facts, envs, fs) == Ok::<Seq<Seq<char>>, StartFault>(cmd.deep_view()) by {
            let a = audio_result(ctx.user_id, or_false(cli_args.pipewire), or_false(cli_args.pulseaudio), envs, fs)->Ok_0;
            let w = wayland_result(ctx.user_id, ctx.user_home@, or_false(cli_args.wayland), envs, fs)->Ok_0;
            let g = gpu_result(gpus_of(cli_args.gpus), opt_strs(facts.dri), fs)->Ok_0;
            let sh = ssh_result(ctx.user_id, or_false(cli_args.ssh_agent), envs, fs)->Ok_0;
            let b = bus_result(ctx.user_id, or_false(cli_args.session_bus), envs, fs)->Ok_0;
            assert(s0 =~= Seq::<Seq<char>>::empty());
            assert(cmd.deep_view() =~= a + w + g + sh + b);
        }
    }
    Ok(cmd)
}

/// Adds the ports, the skeleton, the extra engine arguments, the image and `init`.
fn push_rest(cmd: &mut Vec<String>, cfg: &ConfigV1)
    ensures
        final(cmd).deep_view() == old(cmd).deep_view() + port_args(cfg.ports@) + skel_args(cfg.skel)
            + cfg.engine_args.deep_view() + seq![image_of(cfg.source), "init"@],
{
    let ghost start = cmd.deep_view();
    // pass through ports, both TCP and UDP
    let mut k: usize = 0;
    assert(cfg.ports@.take(0) =~= Seq::<(u32, u32)>::empty());
    while k < cfg.ports.len()
        invariant
            k <= cfg.ports.len(),
            cmd.deep_view() == start + port_args(cfg.ports@.take(k as int)),
        decreases cfg.ports.len() - k,
    {
        let (c, h) = cfg.ports[k];
        let hs = u64_to_string(h as u64);
        let cs = u64_to_string(c as u64);
        push_owned(cmd, concat5("--publish=", hs.as_str(), ":", cs.as_str(), "/tcp"));
        push_owned(cmd, concat5("--publish=", hs.as_str(), ":", cs.as_str(), "/udp"));
        k = k + 1;
        assert(cfg.ports@.take(k as int).drop_last() =~= cfg.ports@.take(k - 1));
        assert(cmd.deep_view() =~= start + port_args(cfg.ports@.take(k as int)));
    }
    assert(cfg.ports@.take(cfg.ports.len() as int) =~= cfg.ports@);
    let ghost with_ports = cmd.deep_view();
    // mount skel if provided
    match &cfg.skel {
        Some(skel) => push_owned(cmd, concat3("--volume=", skel.as_str(), ":/etc/skel:ro")),
        None => {},
    }
    assert(cmd.deep_view() =~= with_ports + skel_args(cfg.skel));
    // add the extra args verbatim
    push_all(cmd, &cfg.engine_args);
    let image = match &cfg.source {
        SourceV1::Image(i) => i.as_str(),
        SourceV1::Nix(p, _) => p.as_str(),
    };
    push_string(cmd, image);
    // run the init command
    push_string(cmd, "init");
    assert(cmd.deep_view() =~= start + port_args(cfg.ports@) + skel_args(cfg.skel)
        + cfg.engine_args.deep_view() + seq![image_of(cfg.source), "init"@]);
}

/// Builds the engine arguments that run a new container named `name` with
/// the configuration `cfg` (already expanded and merged with the command
/// line): fixed options, gvisor when asked (it must be in the path), the
/// identity of the container, the environment, the capabilities, the
/// additional mounts, the terminfo directories of the host, named volumes,
/// no network unless allowed, the sockets and devices asked for on the
/// command line, published ports, the skeleton, extra engine arguments, the
/// image and `init` (see `run_outcome`).
pub fn run_args<E: Fn(&str) -> Option<String>, P: Fn(&str) -> PathKind>(ctx: &Context, cfg: &ConfigV1, cli_args: &CmdStartArgs, name: &str,
    facts: &HostFacts, env: &E, probe: &P) -> (r: Result<Vec<String>, StartError>)
    requires
        forall|x: &str| #[trigger] env.requires((x,)),
        forall|x: &str| #[trigger] probe.requires((x,)),
        !gpus_of(cli_args.gpus).contains(0u8) ==> forall|k: int| 0 <= k < gpus_of(cli_args.gpus).len() ==> gpus_of(cli_args.gpus)[k] <= 128,
    ensures
        forall|envs: spec_fn(Seq<char>) -> Option<Seq<char>>, fs: spec_fn(Seq<char>) -> Option<Option<Seq<char>>>|
            getter_agrees(*env, envs) && probe_agrees(*probe, fs) ==>
            run_outcome(r, *ctx, *cfg, *cli_args, name@, *facts, envs, fs),
{
    let mut cmd = match run_head_args(ctx, cfg, cli_args, name, facts, env, probe) {
        Ok(v) => v,
        Err(e) => return Err(e),
    };
    let ghost head = cmd.deep_view();
    // find all terminfo dirs
    let env_dirs = env_get(env, "TERMINFO_DIRS");
    let listing: Option<&CommandOutput> = match &facts.terminfo {
        Some(o) => Some(o),
        None => None,
    };
    let t = match &env_dirs {
        Some(d) => find_terminfo(listing, Some(d.as_str()), probe),
        None => find_terminfo(listing, None, probe),
    };
    let t = match t {
        Ok(t) => t,
        Err(e) => return Err(e),
    };
    push_all(&mut cmd, &t);
    push_volumes_network(&mut cmd, cfg);
    let pass = match run_passthrough_args(ctx, cli_args, facts, env, probe) {
        Ok(p) => p,
        Err(e) => return Err(e),
    };
    push_all(&mut cmd, &pass);
    push_rest(&mut cmd, cfg);
    proof {
        let v = cmd.deep_view();
        let tail = run_tail(*cfg, pass.deep_view());
        assert(v =~= head + t.deep_view() + tail);
        assert(v.subrange(0, head.len() as int) =~= head);
        assert(v.subrange(head.len() as int, v.len() - tail.len()) =~= t.deep_view());
        assert(v.subrange(v.len() - tail.len(), v.len() as int) =~= tail);
        assert(match listing { Some(o) => Some(*o), None => None::<CommandOutput> } == facts.terminfo);
    }
    Ok(cmd)
}

/// A container has no network unless its configuration allows it: the
/// arguments after the terminfo mounts then hold `--network=none`.
pub proof fn law_no_network_by_default(cfg: ConfigV1, passthrough: Seq<Seq<char>>)
    requires
        !cfg.network,
    ensures
        run_tail(cfg, passthrough).contains("--network=none"@),
{
    let t = run_tail(cfg, passthrough);
    let k = volume_args(cfg.persist@ + cfg.persist_user@).len();
    assert(t[k as int] == "--network=none"@);
}

/// Nothing of the host is passed through unless the command line asks for
/// it: without the flags for audio, wayland, GPUs, ssh-agent and the session
/// bus, the pass-through arguments are empty.
pub proof fn law_nothing_passed_through_by_default(ctx: Context, cli: CmdStartArgs, facts: HostFacts,
    envs: spec_fn(Seq<char>) -> Option<Seq<char>>, fs: spec_fn(Seq<char>) -> Option<Option<Seq<char>>>)
    requires
        !or_false(cli.pipewire),
        !or_false(cli.pulseaudio),
        !or_false(cli.wayland),
        gpus_of(cli.gpus).len() == 0,
        !or_false(cli.ssh_agent),
        !or_false(cli.session_bus),
    ensures
        run_passthrough(ctx, cli, facts, envs, fs) == Ok::<Seq<Seq<char>>, StartFault>(Seq::empty()),
{
    assert(Seq::<Seq<char>>::empty().map_values(|f: Seq<char>| "--device="@ + f) =~= Seq::<Seq<char>>::empty());
    assert(Seq::<Seq<char>>::empty() + Seq::<Seq<char>>::empty() + Seq::<Seq<char>>::empty() + Seq::<Seq<char>>::empty()
        + Seq::<Seq<char>>::empty() =~= Seq::<Seq<char>>::empty());
}

/// Every container is removed when it stops and runs the init of the
/// application: the arguments start with `run`, `-d`, `--rm` and end with
/// the image and `init`.
pub proof fn law_ephemeral_with_init(v: Seq<Seq<char>>, head: Seq<Seq<char>>, dirs: Seq<Seq<char>>, cfg: ConfigV1, passthrough: Seq<Seq<char>>)
    requires
        run_args_made_of(v, head, dirs, run_tail(cfg, passthrough)),
        head.len() >= 3,
        head.subrange(0, 3) == seq!["run"@, "-d"@, "--rm"@],
    ensures
        v.subrange(0, 3) == seq!["run"@, "-d"@, "--rm"@],
        v.last() == "init"@,
        v[v.len() - 2] == image_of(cfg.source),
{
    let tail = run_tail(cfg, passthrough);
    assert(v.subrange(0, 3) =~= head.subrange(0, 3)) by {
        assert(v.subrange(0, head.len() as int) == head);
        assert forall|i: int| 0 <= i < 3 implies v.subrange(0, 3)[i] == head.subrange(0, 3)[i] by {
            assert(v.subrange(0, head.len() as int)[i] == head[i]);
        }
    }
    let ts = v.subrange(v.len() - tail.len(), v.len() as int);
    assert(ts == tail);
    assert(tail.len() >= 2);
    assert(v.last() == ts[tail.len() - 1]);
    assert(v[v.len() - 2] == ts[tail.len() - 2]);
}

/// The command that runs a container whose configuration does not allow
/// the network (after the command line is merged into it) holds
/// `--network=none`; the start runs exactly this command (see
/// `start_container`).
pub proof fn law_run_without_network(r: Result<Vec<String>, StartError>, ctx: Context, cfg: ConfigV1, cli: CmdStartArgs, name: Seq<char>,
    facts: HostFacts, envs: spec_fn(Seq<char>) -> Option<Seq<char>>, fs: spec_fn(Seq<char>) -> Option<Option<Seq<char>>>)
    requires
        run_outcome(r, ctx, cfg, cli, name, facts, envs, fs),
        r is Ok,
        !cfg.network,
    ensures
        r->Ok_0.deep_view().contains("--network=none"@),
{
    let v = r->Ok_0.deep_view();
    let head = run_head(ctx, cfg, cli, name, facts, envs, fs)->Ok_0;
    let p = run_passthrough(ctx, cli, facts, envs, fs)->Ok_0;
    let tail = run_tail(cfg, p);
    let k = volume_args(cfg.persist@ + cfg.persist_user@).len();
    assert(tail[k as int] == "--network=none"@);
    let ts = v.subrange(v.len() - tail.len(), v.len() as int);
    assert(ts == tail);
    assert(v[v.len() - tail.len() + k] == ts[k as int]);
}

/// A container whose configuration asks for gvisor runs under it: right
/// after the fixed arguments come `--runtime=runsc`, `--runtime-flag` and
/// `ignore-cgroups`, then the name; without gvisor the name follows the
/// fixed arguments directly, with no runtime argument between.
pub proof fn law_gvisor_runtime(r: Result<Vec<String>, StartError>, ctx: Context, cfg: ConfigV1, cli: CmdStartArgs, name: Seq<char>,
    facts: HostFacts, envs: spec_fn(Seq<char>) -> Option<Seq<char>>, fs: spec_fn(Seq<char>) -> Option<Option<Seq<char>>>)
    requires
        run_outcome(r, ctx, cfg, cli, name, facts, envs, fs),
        r is Ok,
    ensures
        ({
            let v = r->Ok_0.deep_view();
            &&& v.len() >= 8
            &&& v.subrange(0, 7) == seq!["run"@, "-d"@, "--rm"@, "--security-opt=label=disable"@, "--user=root"@, "--init"@, "--detach-keys="@]
            &&& cfg.gvisor ==> v.len() >= 11 && v.subrange(7, 10) == seq!["--runtime=runsc"@, "--runtime-flag"@, "ignore-cgroups"@]
                && v[10] == "--name="@ + name
            &&& !cfg.gvisor ==> v[7] == "--name="@ + name
        }),
{
    let v = r->Ok_0.deep_view();
    let head = run_head(ctx, cfg, cli, name, facts, envs, fs)->Ok_0;
    assert(v.subrange(0, head.len() as int) == head);
    let g: Seq<Seq<char>> = if cfg.gvisor { gvisor_args() } else { Seq::empty() };
    let id = ident_args(ctx, name, shell_of(cfg), facts.exe_path@, hostname_result(envs("HOSTNAME"@), facts.hostname)->Ok_0);
    assert(head.len() >= 7 + g.len() + id.len());
    assert(id[0] == "--name="@ + name);
    assert forall|i: int| 0 <= i < head.len() implies v[i] == head[i] by {
        assert(v.subrange(0, head.len() as int)[i] == head[i]);
    }
    assert(v.subrange(0, 7) =~= base_args());
    if cfg.gvisor {
        assert(v.subrange(7, 10) =~= gvisor_args());
        assert(v[10] == head[10]);
    } else {
        assert(v[7] == head[7]);
    }
}

} // verus!
