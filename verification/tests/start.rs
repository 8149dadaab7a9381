use std::collections::HashMap;

use arcam::cli::{CmdStartArgs, ConfigArg, ConfigLoad};
use arcam::command_ext::{CommandOutput, ExitInfo};
use arcam::commands::start::mounts::{
    gpu_passthrough, mount_additional_mounts, mount_audio, mount_session_bus, mount_ssh_agent, mount_wayland, resolve_capabilities,
};
use arcam::commands::start::naming::{get_hostname, generate_name, name_from, which_command};
use arcam::commands::start::nix::{evaluate_file, evaluate_flake, file_build_result, flake_build_result, out_path, NixError};
use arcam::commands::start::prepare::{context_value, draw_numbers, parent_of, prepare_config, start_name, Numbers};
use arcam::commands::start::run::{run_args, HostFacts};
use arcam::commands::start::steps::{
    container_file_exists, init_scripts_of, start_container, StartAction, StartInput, StartState,
};
use arcam::commands::start::terminfo::{find_terminfo, terminfo_dirs_found, terminfo_mount_args};
use arcam::commands::start::StartError;
use arcam::config::{ConfigV1, SourceV1};
use arcam::context::Context;
use arcam::engine::Podman;
use arcam::host::PathKind;

fn ctx(dry_run: bool) -> Context {
    Context {
        user: "user".to_string(),
        user_home: "/home/user".to_string(),
        user_id: 1000,
        user_gid: 1001,
        cwd: "/work/proj".to_string(),
        dry_run,
        app_dir: "/home/user/.config/arcam".to_string(),
        engine: Podman,
    }
}

fn args(image: &str) -> CmdStartArgs {
    CmdStartArgs {
        enter: false,
        name: None,
        shell: None,
        skel: None,
        on_init_pre: vec![],
        on_init_post: vec![],
        mount: vec![],
        env: vec![],
        gvisor: None,
        network: None,
        pipewire: None,
        pulseaudio: None,
        wayland: None,
        gpus: None,
        ssh_agent: None,
        session_bus: None,
        ports: vec![],
        capabilities: vec![],
        config: ConfigArg::Image(image.to_string()),
        engine_args: vec![],
    }
}

fn image_config(image: &str) -> ConfigV1 {
    let mut c = ConfigV1::default();
    c.source = SourceV1::Image(image.to_string());
    c
}

fn output(code: i32, stdout: &str, stderr: &str) -> CommandOutput {
    CommandOutput { status: ExitInfo { code: Some(code) }, stdout: stdout.as_bytes().to_vec(), stderr: stderr.as_bytes().to_vec() }
}

fn env_of(pairs: &[(&str, &str)]) -> impl Fn(&str) -> Option<String> {
    let m: HashMap<String, String> = pairs.iter().map(|(k, v)| (k.to_string(), v.to_string())).collect();
    move |k: &str| m.get(k).cloned()
}

fn fs_of(dirs: &[&str], files: &[&str]) -> impl Fn(&str) -> PathKind {
    let d: Vec<String> = dirs.iter().map(|s| s.to_string()).collect();
    let f: Vec<String> = files.iter().map(|s| s.to_string()).collect();
    move |p: &str| {
        if d.iter().any(|x| x == p) {
            PathKind::Dir(p.to_string())
        } else if f.iter().any(|x| x == p) {
            PathKind::Other
        } else {
            PathKind::Missing
        }
    }
}

#[test]
fn capabilities_last_mention_wins_once_each() {
    let mut a = args("img");
    a.capabilities = vec!["SYS_ADMIN".into(), "!NET_RAW".into(), "!SYS_ADMIN".into(), "NET_RAW".into(), "CHOWN".into()];
    let mut cmd = vec!["x".to_string()];
    resolve_capabilities(&a, &mut cmd);
    assert_eq!(cmd, vec!["x", "--cap-drop=SYS_ADMIN", "--cap-add=NET_RAW", "--cap-add=CHOWN"]);
}

#[test]
fn additional_mounts() {
    let mut a = args("img");
    a.mount = vec!["../data".into()];
    let probe = |p: &str| if p == "../data" { PathKind::Dir("/srv/data".to_string()) } else { PathKind::Missing };
    let mut cmd = vec![];
    assert!(mount_additional_mounts("/home/user/ws", &a, &mut cmd, &probe).is_ok());
    assert_eq!(cmd, vec!["--volume=/srv/data:/home/user/ws/data"]);

    a.mount = vec!["missing".into()];
    let r = mount_additional_mounts("/ws", &a, &mut vec![], &probe);
    assert!(matches!(r, Err(StartError::MountMissing(m)) if m == "missing"));

    a.mount = vec!["file".into()];
    let r = mount_additional_mounts("/ws", &a, &mut vec![], &fs_of(&[], &["file"]));
    assert!(matches!(r, Err(StartError::MountNotDir(m)) if m == "file"));

    a.mount = vec!["/".into()];
    let r = mount_additional_mounts("/ws", &a, &mut vec![], &fs_of(&["/"], &[]));
    assert!(matches!(r, Err(StartError::MountUnnamed(_))));
}

#[test]
fn audio_sockets() {
    let c = ctx(false);
    let mut a = args("img");
    a.pipewire = Some(true);
    a.pulseaudio = Some(true);
    let probe = fs_of(&[], &["/run/user/1000/pipewire-0", "/tmp/pulse"]);
    let mut cmd = vec![];
    assert!(mount_audio(&c, &a, &mut cmd, &env_of(&[("PULSE_SERVER", "unix:/tmp/pulse")]), &probe).is_ok());
    assert_eq!(
        cmd,
        vec![
            "--volume=/run/user/1000/pipewire-0:/run/user/1000/pipewire-0",
            "--env=PIPEWIRE_REMOTE=/run/user/1000/pipewire-0",
            "--volume=/tmp/pulse:/run/user/1000/pulse/native",
            "--env=PULSE_SERVER=unix:/run/user/1000/pulse/native",
        ]
    );
    let r = mount_audio(&c, &a, &mut vec![], &env_of(&[("PULSE_SERVER", "tcp:host")]), &probe);
    assert!(matches!(r, Err(StartError::PulseInvalid(v)) if v == "tcp:host"));
    let r = mount_audio(&c, &a, &mut vec![], &env_of(&[]), &fs_of(&[], &[]));
    assert!(matches!(r, Err(StartError::PipewireMissing(p)) if p == "/run/user/1000/pipewire-0"));
    // nothing asked, nothing done
    let mut cmd = vec![];
    assert!(mount_audio(&c, &args("img"), &mut cmd, &env_of(&[]), &fs_of(&[], &[])).is_ok());
    assert!(cmd.is_empty());
}

#[test]
fn wayland_socket_and_fonts() {
    let c = ctx(false);
    let mut a = args("img");
    a.wayland = Some(true);
    let probe = fs_of(&["/usr/share/fonts", "/home/user/.local/share/fonts"], &["/run/user/1000/wayland-1"]);
    let mut cmd = vec![];
    assert!(mount_wayland(&c, &a, &mut cmd, &env_of(&[("WAYLAND_DISPLAY", "wayland-1")]), &probe).is_ok());
    assert_eq!(
        cmd,
        vec![
            "--volume=/run/user/1000/wayland-1:/run/user/1000/wayland-1",
            "--env=WAYLAND_DISPLAY=wayland-1",
            "--volume=/usr/share/fonts:/usr/share/fonts/host:ro",
            "--volume=/home/user/.local/share/fonts:/usr/share/fonts/host_local:ro",
        ]
    );
    // the variable of the application comes first
    let r = mount_wayland(&c, &a, &mut vec![], &env_of(&[("ARCAM_WAYLAND_DISPLAY", "w9"), ("WAYLAND_DISPLAY", "wayland-1")]), &probe);
    assert!(matches!(r, Err(StartError::WaylandMissing(s)) if s == "/run/user/1000/w9"));
    let r = mount_wayland(&c, &a, &mut vec![], &env_of(&[]), &probe);
    assert!(matches!(r, Err(StartError::WaylandUndefined)));
}

#[test]
fn gpu_devices() {
    let mut a = args("img");
    a.gpus = Some(vec![1]);
    let probe = fs_of(&[], &["/dev/dri/card1", "/dev/dri/renderD128"]);
    let mut cmd = vec![];
    assert!(gpu_passthrough(&a, &mut cmd, &None, &probe).is_ok());
    assert_eq!(cmd, vec!["--device=/dev/dri/card1", "--device=/dev/dri/renderD128"]);
    a.gpus = Some(vec![2]);
    assert!(matches!(gpu_passthrough(&a, &mut vec![], &None, &probe), Err(StartError::GpuMissing(2))));
    a.gpus = Some(vec![0]);
    let mut cmd = vec![];
    let dri = Some(vec!["by-path".to_string(), "card0".to_string(), "renderD128".to_string()]);
    assert!(gpu_passthrough(&a, &mut cmd, &dri, &probe).is_ok());
    assert_eq!(cmd, vec!["--device=/dev/dri/card0", "--device=/dev/dri/renderD128"]);
    assert!(matches!(gpu_passthrough(&a, &mut vec![], &None, &probe), Err(StartError::GpuListFailed)));
}

#[test]
fn ssh_and_session_bus() {
    let c = ctx(false);
    let mut a = args("img");
    a.ssh_agent = Some(true);
    a.session_bus = Some(true);
    let probe = fs_of(&[], &["/tmp/agent", "/run/user/1000/bus"]);
    let env = env_of(&[("SSH_AUTH_SOCK", "/tmp/agent"), ("DBUS_SESSION_BUS_ADDRESS", "unix:path=/run/user/1000/bus")]);
    let mut cmd = vec![];
    assert!(mount_ssh_agent(&c, &a, &mut cmd, &env, &probe).is_ok());
    assert!(mount_session_bus(&c, &a, &mut cmd, &env, &probe).is_ok());
    assert_eq!(
        cmd,
        vec![
            "--volume=/tmp/agent:/run/user/1000/ssh-auth",
            "--env=SSH_AUTH_SOCK=/run/user/1000/ssh-auth",
            "--volume=/run/user/1000/bus:/run/user/1000/bus",
            "--env=DBUS_SESSION_BUS_ADDRESS=unix:path=/run/user/1000/bus",
        ]
    );
    assert!(matches!(mount_ssh_agent(&c, &a, &mut vec![], &env_of(&[]), &probe), Err(StartError::SshUndefined)));
    let bad = env_of(&[("DBUS_SESSION_BUS_ADDRESS", "tcp:x")]);
    assert!(matches!(mount_session_bus(&c, &a, &mut vec![], &bad, &probe), Err(StartError::BusInvalid(v)) if v == "tcp:x"));
}

#[test]
fn terminfo_directories_and_arguments() {
    let listing = output(0, "/usr/share/terminfo\n/missing\n", "");
    let probe = fs_of(&["/usr/share/terminfo", "/etc/terminfo", "/nix/terminfo"], &[]);
    let dirs = terminfo_dirs_found(Some(&listing), Some("/nix/terminfo:/usr/share/terminfo"), &probe);
    // the standard ones that exist come last, when not found already
    assert_eq!(dirs, vec!["/usr/share/terminfo", "/nix/terminfo", "/etc/terminfo"]);
    // the tool's lines are taken as listed, a repeated one too
    let twice = output(0, "/nix/terminfo\n/nix/terminfo\n", "");
    let dirs = terminfo_dirs_found(Some(&twice), Some("/nix/terminfo"), &probe);
    assert_eq!(dirs, vec!["/nix/terminfo", "/nix/terminfo", "/usr/share/terminfo", "/etc/terminfo"]);
    let a = terminfo_mount_args(&vec!["/d1".to_string()], &vec!["ab12".to_string()]);
    assert_eq!(
        a,
        vec![
            "--volume=/d1:/host/terminfo/ab12:ro",
            "--env=TERMINFO_DIRS=/host/terminfo/ab12:/usr/share/terminfo:/usr/lib/terminfo:/etc/terminfo",
        ]
    );
    let r = find_terminfo(None, None, &fs_of(&[], &[])).unwrap_err();
    assert!(matches!(r, StartError::NoTerminfo));
    // a standard directory alone is mounted, once
    let only = fs_of(&["/usr/share/terminfo"], &[]);
    let r = find_terminfo(None, None, &only).unwrap();
    assert_eq!(r.len(), 2);
    assert!(r[0].starts_with("--volume=/usr/share/terminfo:/host/terminfo/"));
    let r = find_terminfo(Some(&listing), None, &probe).unwrap();
    assert_eq!(r.len(), 3);
    assert!(r[0].starts_with("--volume=/usr/share/terminfo:/host/terminfo/"));
    assert_eq!(r[0].len(), "--volume=/usr/share/terminfo:/host/terminfo/".len() + 4 + ":ro".len());
}

#[test]
fn names_of_containers_and_host() {
    assert_eq!(name_from("brave", None), "brave-arcam");
    assert_eq!(name_from("brave", Some("")), "brave");
    assert_eq!(name_from("brave", Some("dev")), "brave-dev");
    let n = generate_name(&env_of(&[("ARCAM_CONTAINER_SUFFIX", "box")]));
    assert!(n.ends_with("-box"));
    assert_eq!(get_hostname(Some("envhost"), None).unwrap(), "envhost");
    assert_eq!(get_hostname(None, Some(&output(0, " myhost\n", ""))).unwrap(), "myhost");
    assert!(matches!(get_hostname(None, None), Err(StartError::HostnameCall)));
    assert!(matches!(get_hostname(None, Some(&output(1, "x", ""))), Err(StartError::NoHostname)));
    let w = which_command("runsc");
    assert_eq!(w.program, "sh");
    assert_eq!(w.args, vec!["-c", "which runsc"]);
}

#[test]
fn configuration_values() {
    let c = ctx(false);
    let mut cfg = image_config("img");
    cfg.path = Some("/cfg/dir/box.toml".to_string());
    cfg.name = Some("box".to_string());
    let env = env_of(&[("OTHER", "o")]);
    assert_eq!(context_value(&c, "USER", "n", &cfg, 7, &env), Some("user".to_string()));
    assert_eq!(context_value(&c, "PWD", "n", &cfg, 7, &env), Some("/work/proj".to_string()));
    assert_eq!(context_value(&c, "CONTAINER_NAME", "n", &cfg, 7, &env), Some("n".to_string()));
    assert_eq!(context_value(&c, "RANDOM", "n", &cfg, 7, &env), Some("7".to_string()));
    assert_eq!(context_value(&c, "CONFIG_DIR", "n", &cfg, 7, &env), Some("/cfg/dir".to_string()));
    assert_eq!(context_value(&c, "CONFIG_NAME", "n", &cfg, 7, &env), Some("box".to_string()));
    assert_eq!(context_value(&c, "OTHER", "n", &cfg, 7, &env), Some("o".to_string()));
    assert_eq!(context_value(&c, "NONE", "n", &cfg, 7, &env), None);
    assert_eq!(parent_of("box.toml"), "");
    assert_eq!(parent_of("/box.toml"), "/");
}

#[test]
fn prepare_expands_before_merging() {
    let c = ctx(false);
    let mut cfg = image_config("img");
    cfg.engine_args = vec!["--label=x=$CONTAINER_NAME".into()];
    cfg.env = vec![("HOMEDIR".into(), "${HOME}/x".into())];
    let mut a = args("img");
    a.engine_args = vec!["$NOT_EXPANDED".into()];
    a.network = Some(true);
    let nums = draw_numbers(&cfg);
    assert_eq!((nums.args.len(), nums.args[0].len(), nums.env.len()), (1, "--label=x=$CONTAINER_NAME".len(), 1));
    let p = prepare_config(&c, &a, cfg, "box".to_string(), &nums, &env_of(&[])).unwrap();
    assert_eq!(p.name, "box");
    assert_eq!(p.config.engine_args, vec!["--label=x=box"]);
    assert_eq!(p.config.env, vec![("HOMEDIR".to_string(), "/home/user/x".to_string())]);
    assert!(p.config.network);

    let mut bad = image_config("img");
    bad.skel = Some("${MISSING:?}".into());
    let nums = draw_numbers(&bad);
    let r = prepare_config(&c, &a, bad, "box".to_string(), &nums, &env_of(&[]));
    assert!(matches!(r, Err(StartError::Expand(_))));
}

#[test]
fn each_random_reference_gets_its_own_number() {
    let c = ctx(false);
    let mut cfg = image_config("img");
    cfg.engine_args = vec!["$RAND-${RANDOM}".into()];
    cfg.skel = Some("/s$RAND".into());
    cfg.env = vec![("R".into(), "$RANDOM".into())];
    // the numbers of a reference stand at the position of its `$`
    let nums = Numbers { args: vec![vec![11, 0, 0, 0, 0, 0, 22, 0, 0, 0, 0, 0, 0, 0, 0]], skel: vec![0, 0, 33, 0, 0, 0, 0], env: vec![vec![44, 0, 0, 0, 0, 0, 0]] };
    let p = prepare_config(&c, &args("img"), cfg, "box".to_string(), &nums, &env_of(&[])).unwrap();
    assert_eq!(p.config.engine_args, vec!["11-22"]);
    assert_eq!(p.config.skel, Some("/s33".to_string()));
    assert_eq!(p.config.env, vec![("R".to_string(), "44".to_string())]);
    // drawn numbers sit only at the `$` of each text
    let mut twice = image_config("img");
    twice.engine_args = vec!["a$RAND$RAND".into()];
    let n = draw_numbers(&twice);
    assert!(n.args[0].iter().enumerate().all(|(i, x)| i == 1 || i == 6 || *x == 0));
}

#[test]
fn name_precedence() {
    let mut a = args("img");
    let mut cfg = image_config("img");
    cfg.name = Some("fromcfg".into());
    assert_eq!(start_name(&a, &cfg, &env_of(&[])), "fromcfg");
    a.name = Some("fromcli".into());
    assert_eq!(start_name(&a, &cfg, &env_of(&[])), "fromcli");
}

fn host_fs() -> impl Fn(&str) -> PathKind {
    fs_of(&["/usr/share/terminfo"], &[])
}

fn facts() -> HostFacts {
    HostFacts {
        exe_path: "/usr/bin/arcam".to_string(),
        hostname: Some(output(0, "host\n", "")),
        terminfo: Some(output(0, "/usr/share/terminfo\n", "")),
        runsc: Some(output(1, "", "")),
        dri: None,
    }
}

#[test]
fn run_arguments_of_a_start() {
    let c = ctx(false);
    let mut cfg = image_config("debian:trixie");
    cfg.shell = Some("/bin/zsh".into());
    cfg.env = vec![("A".into(), "1".into())];
    cfg.persist = vec![("vol".into(), "/data".into())];
    cfg.ports = vec![(80, 8080)];
    cfg.engine_args = vec!["--privileged".into()];
    let a = args("debian:trixie");
    let probe = fs_of(&["/usr/share/terminfo"], &[]);
    let v = run_args(&c, &cfg, &a, "box", &facts(), &env_of(&[]), &probe).unwrap();
    let head: Vec<&str> = vec![
        "run", "-d", "--rm", "--security-opt=label=disable", "--user=root", "--init", "--detach-keys=",
        "--name=box", "--label=manager=podman", "--label=arcam=0.1.0", "--label=host_dir=/work/proj",
        "--label=container_dir=/home/user/ws/proj", "--label=user_shell=/bin/zsh", "--env=arcam=arcam",
        "--env=ARCAM_VERSION=0.1.0", "--env=manager=podman", "--env=CONTAINER_ENGINE=podman", "--env=CONTAINER_NAME=box",
        "--env=HOST_USER=user", "--env=HOST_USER_UID=1000", "--env=HOST_USER_GID=1001", "--env=XDG_RUNTIME_DIR=/run/user/1000",
        "--volume=/work/proj:/home/user/ws/proj", "--volume=/usr/bin/arcam:/arcam/arcam:ro,nocopy", "--entrypoint=/arcam/arcam",
        "--hostname=host", "--userns=keep-id", "--ulimit=host", "--tz=local", "--env=A=1",
    ];
    assert_eq!(&v[..head.len()], &head[..]);
    // the standard directory found by the terminfo tool is mounted once
    assert!(v[head.len()].starts_with("--volume=/usr/share/terminfo:/host/terminfo/"));
    assert!(v[head.len() + 1].starts_with("--env=TERMINFO_DIRS=/host/terminfo/"));
    let tail: Vec<&str> = vec![
        "--mount=type=volume,source=vol,destination=/data", "--network=none", "--publish=8080:80/tcp", "--publish=8080:80/udp",
        "--privileged", "debian:trixie", "init",
    ];
    assert_eq!(&v[head.len() + 2..], &tail[..]);
}

#[test]
fn run_arguments_errors() {
    let c = ctx(false);
    let mut cfg = image_config("img");
    cfg.gvisor = true;
    let probe = fs_of(&["/usr/share/terminfo"], &[]);
    let r = run_args(&c, &cfg, &args("img"), "box", &facts(), &env_of(&[]), &probe);
    assert!(matches!(r, Err(StartError::NoGvisor)));
    let r = run_args(&c, &image_config("img"), &args("img"), "box", &facts(), &env_of(&[]), &fs_of(&[], &[]));
    assert!(matches!(r, Err(StartError::NoTerminfo)));
}

#[test]
fn start_steps_until_the_container_runs() {
    let c = ctx(false);
    let a = args("debian:trixie");
    let env = env_of(&[]);
    let (s, act) = start_container(&c, &a, &env, &host_fs(), false, StartState::Start, StartInput::Begin);
    assert!(matches!(s, StartState::AwaitCwd));
    match act {
        StartAction::ListCwd(v) => assert_eq!(v, vec!["container", "ls", "--format", "{{ .Names }}", "--filter=label=host_dir=/work/proj"]),
        _ => panic!("expected a listing"),
    }
    let (_, act) = start_container(&c, &a, &env, &host_fs(), false, StartState::AwaitCwd, StartInput::CwdContainers(vec!["a".into(), "b".into()]));
    assert!(matches!(act, StartAction::Fail(StartError::RunningHere(n)) if n == "a b"));
    let (s, act) = start_container(&c, &a, &env, &host_fs(), false, StartState::AwaitCwd, StartInput::CwdContainers(vec![]));
    assert!(matches!(s, StartState::AwaitConfig));
    let cfg = match act {
        StartAction::Load(ConfigLoad::Ready(cfg)) => cfg,
        _ => panic!("expected a ready configuration"),
    };
    let (s, act) = start_container(&c, &a, &env, &host_fs(), false, StartState::AwaitConfig, StartInput::Config(cfg));
    match &act {
        StartAction::CheckExists(v) => assert_eq!(&v[..2], &["container".to_string(), "exists".to_string()][..]),
        _ => panic!("expected an existence check"),
    }
    let (s, act) = start_container(&c, &a, &env, &host_fs(), false, s, StartInput::ExistsCode(1));
    assert!(matches!(act, StartAction::Build));
    let (s, act) = start_container(&c, &a, &env, &host_fs(), false, s, StartInput::Facts(facts()));
    match &act {
        StartAction::CheckImage(v) => assert_eq!(v, &vec!["image", "exists", "debian:trixie"]),
        _ => panic!("expected an image check"),
    }
    let (s, act) = start_container(&c, &a, &env, &host_fs(), false, s, StartInput::ImageCode(1));
    match &act {
        StartAction::Pull(v) => assert_eq!(v, &vec!["image", "pull", "debian:trixie"]),
        _ => panic!("expected a pull"),
    }
    let (s, act) = start_container(&c, &a, &env, &host_fs(), false, s, StartInput::Pulled(true));
    match &act {
        StartAction::Run(v) => {
            assert_eq!(&v[..3], &["run", "-d", "--rm"]);
            assert!(v.contains(&"--network=none".to_string()));
            assert_eq!(&v[v.len() - 2..], &["debian:trixie", "init"]);
        },
        _ => panic!("expected the run"),
    }
    let (s, act) = start_container(&c, &a, &env, &host_fs(), false, s, StartInput::RunOutput(output(0, "abc123\n", "")));
    match &act {
        StartAction::CheckFlag(v, 0) => assert_eq!(v, &vec!["exec", "abc123", "test", "-f", "/arcam/preinit"]),
        _ => panic!("expected a flag check"),
    }
    let (s, act) = start_container(&c, &a, &env, &host_fs(), false, s, StartInput::FlagCode(1));
    assert!(matches!(act, StartAction::CheckFlag(_, 100)));
    let (s, act) = start_container(&c, &a, &env, &host_fs(), false, s, StartInput::FlagCode(0));
    match &act {
        StartAction::RemoveFlag(v) => assert_eq!(v, &vec!["exec", "--user", "root", "abc123", "rm", "/arcam/preinit"]),
        _ => panic!("expected the removal of the flag"),
    }
    let (s, act) = start_container(&c, &a, &env, &host_fs(), false, s, StartInput::Removed);
    assert!(matches!(&act, StartAction::CheckFlag(v, 0) if v[4] == "/arcam/initialized"));
    let (s, act) = start_container(&c, &a, &env, &host_fs(), false, s, StartInput::FlagCode(0));
    assert!(matches!(s, StartState::Done));
    assert!(matches!(act, StartAction::PrintName(_)));
}

#[test]
fn start_steps_errors() {
    let c = ctx(false);
    let a = args("img");
    let env = env_of(&[]);
    let mut cfg = image_config("img");
    cfg.name = Some("taken".into());
    let (s, _) = start_container(&c, &a, &env, &host_fs(), false, StartState::AwaitConfig, StartInput::Config(cfg));
    let (_, act) = start_container(&c, &a, &env, &host_fs(), false, s, StartInput::ExistsCode(0));
    assert!(matches!(act, StartAction::Fail(StartError::NameTaken(n)) if n == "taken"));
    let (_, act) = start_container(&c, &a, &env, &host_fs(), false, StartState::Start, StartInput::Removed);
    assert!(matches!(act, StartAction::Fail(StartError::Unexpected)));
    let mut cfg = image_config("img");
    cfg.name = Some("n".into());
    let (s, _) = start_container(&c, &a, &env, &host_fs(), false, StartState::AwaitConfig, StartInput::Config(cfg));
    let (s, _) = start_container(&c, &a, &env, &host_fs(), false, s, StartInput::ExistsCode(1));
    let (s, _) = start_container(&c, &a, &env, &host_fs(), false, s, StartInput::Facts(facts()));
    let (s, _) = start_container(&c, &a, &env, &host_fs(), false, s, StartInput::ImageCode(0));
    let (_, act) = start_container(&c, &a, &env, &host_fs(), false, s, StartInput::RunOutput(output(125, "", "boom")));
    assert!(matches!(act, StartAction::Fail(StartError::InitFailed(m)) if m == "boom"));
}

#[test]
fn start_host_script_runs_in_place() {
    let c = ctx(false);
    let a = args("img");
    let mut cfg = image_config("img");
    cfg.host_pre_init = Some("echo hi".into());
    cfg.path = Some("/cfgs/box.toml".into());
    let (s, act) = start_container(&c, &a, &env_of(&[]), &host_fs(), false, StartState::AwaitConfig, StartInput::Config(cfg.clone()));
    assert!(matches!(s, StartState::Done));
    match act {
        StartAction::RunHostScript(script, dir, name) => {
            assert_eq!(script, "#!/bin/sh\necho hi");
            assert_eq!(dir, Some("/cfgs".to_string()));
            assert_eq!(name, None);
        },
        _ => panic!("expected the host script"),
    }
    // while the script runs, the start goes on
    let (_, act) = start_container(&c, &a, &env_of(&[("ARCAM_EXE_PATH", "/a")]), &host_fs(), false, StartState::AwaitConfig, StartInput::Config(cfg));
    assert!(matches!(act, StartAction::CheckExists(_)));
}

#[test]
fn start_refuses_an_empty_name() {
    let mut a = args("img");
    a.name = Some("".into());
    let (s, act) = start_container(&ctx(false), &a, &env_of(&[]), &host_fs(), false, StartState::AwaitConfig, StartInput::Config(image_config("img")));
    assert!(matches!(s, StartState::Done));
    assert!(matches!(act, StartAction::Fail(StartError::NameEmpty)));
    // a dry run asks the engine nothing
    let (_, act) = start_container(&ctx(true), &a, &env_of(&[]), &host_fs(), false, StartState::AwaitConfig, StartInput::Config(image_config("img")));
    assert!(matches!(act, StartAction::Build));
    // containers already running here are reported before anything else
    let (_, act) = start_container(&ctx(false), &a, &env_of(&[]), &host_fs(), false, StartState::AwaitCwd, StartInput::CwdContainers(vec!["a".into(), "b".into()]));
    assert!(matches!(act, StartAction::Fail(StartError::RunningHere(n)) if n == "a b"));
}

#[test]
fn start_dry_run_only_shows() {
    let c = ctx(true);
    let mut a = args("img");
    a.name = Some("dry".into());
    let (s, act) = start_container(&c, &a, &env_of(&[]), &host_fs(), false, StartState::AwaitConfig, StartInput::Config(image_config("img")));
    assert!(matches!(act, StartAction::Build));
    let (s, act) = start_container(&c, &a, &env_of(&[]), &host_fs(), false, s, StartInput::Facts(facts()));
    assert!(matches!(s, StartState::Done));
    match act {
        StartAction::ShowRun(v) => {
            assert_eq!(v[0], "run");
            assert!(v.contains(&"--name=dry".to_string()));
            assert!(v.contains(&"--network=none".to_string()));
        },
        _ => panic!("expected the command to show"),
    }
}

#[test]
fn init_scripts_in_order() {
    let mut cfg = image_config("img");
    cfg.on_init_pre = Some("a".into());
    cfg.on_init_post = Some("".into());
    cfg.persist_user = vec![("v1".into(), "/p1".into()), ("v2".into(), "/p2".into())];
    let s = init_scripts_of(&cfg);
    assert_eq!(
        s,
        vec![
            ("/init.d/01_on_init_pre.sh".to_string(), "#!/bin/sh\nset -e\na".to_string()),
            ("/init.d/00_chown_persist.sh".to_string(), "#!/bin/sh\nset -e\n\nasroot chown \"$USER:$USER\" /p1 /p2\n".to_string()),
        ]
    );
}

#[test]
fn flag_file_answers() {
    assert_eq!(container_file_exists(0).unwrap(), true);
    assert_eq!(container_file_exists(1).unwrap(), false);
    assert!(matches!(container_file_exists(125), Err(StartError::ContainerExited)));
    assert!(matches!(container_file_exists(3), Err(StartError::InitUnknown(3))));
}

#[test]
fn nix_builds() {
    let f = evaluate_file("/x/default.nix", true).unwrap();
    assert_eq!(f.program, "nix");
    assert_eq!(f.args, vec!["build", "--no-link", "--file", "/x/default.nix"]);
    assert_eq!(evaluate_file("/x", false).unwrap_err(), NixError::FileMissing("/x".into()));
    let f = evaluate_flake("/f", "shell", true).unwrap();
    assert_eq!(f.args, vec!["build", "--no-link", "/f#shell"]);
    assert_eq!(evaluate_flake("/f", "s", false).unwrap_err(), NixError::FlakeMissing("/f".into()));
    assert_eq!(file_build_result(&output(0, "a\n/nix/store/x\n", "")).unwrap(), "/nix/store/x");
    assert_eq!(file_build_result(&output(2, "", "")).unwrap_err(), NixError::Failed(2));
    assert_eq!(file_build_result(&output(0, "", "")).unwrap_err(), NixError::Empty);
    let builds = vec![vec![("dev".to_string(), "/nix/store/d".to_string()), ("out".to_string(), "/nix/store/92pmhqg2kgg5j91lpb0pwigkywbhdfqa-test-shell-script".to_string())]];
    assert_eq!(out_path(&builds), "/nix/store/92pmhqg2kgg5j91lpb0pwigkywbhdfqa-test-shell-script");
}

#[test]
fn nix_build_parsing() {
    let raw = r#"[{"drvPath":"/nix/store/kikbarkbjmnmsm9r4mq21k8l9j8ivc8k-test-shell-script.drv","outputs":{"out":"/nix/store/92pmhqg2kgg5j91lpb0pwigkywbhdfqa-test-shell-script"}}]"#;

    let parsed: Vec<HashMap<String, serde_json::Value>> = serde_json::from_str(raw).unwrap();
    let builds: Vec<Vec<(String, String)>> = parsed
        .iter()
        .map(|b| {
            b["outputs"]
                .as_object()
                .unwrap()
                .iter()
                .map(|(k, v)| (k.clone(), v.as_str().unwrap().to_string()))
                .collect()
        })
        .collect();

    assert_eq!(out_path(&builds), "/nix/store/92pmhqg2kgg5j91lpb0pwigkywbhdfqa-test-shell-script");
}

#[test]
fn nix_file_build_rejects_invalid_text() {
    let o = CommandOutput { status: ExitInfo { code: Some(0) }, stdout: vec![0x2f, 0xff, 0xfe, 0x0a], stderr: vec![] };
    assert_eq!(file_build_result(&o).unwrap_err(), NixError::NotUtf8);
}

#[test]
fn start_enters_only_on_a_terminal() {
    let c = ctx(false);
    let mut a = args("img");
    a.enter = true;
    let mut cfg = image_config("img");
    cfg.name = Some("n".into());
    let run = |tty: bool| {
        let fs = host_fs();
        let env = env_of(&[]);
        let (s, _) = start_container(&c, &a, &env, &fs, tty, StartState::AwaitConfig, StartInput::Config(cfg.clone()));
        let (s, _) = start_container(&c, &a, &env, &fs, tty, s, StartInput::ExistsCode(1));
        let (s, _) = start_container(&c, &a, &env, &fs, tty, s, StartInput::Facts(facts()));
        let (s, _) = start_container(&c, &a, &env, &fs, tty, s, StartInput::ImageCode(0));
        let (s, _) = start_container(&c, &a, &env, &fs, tty, s, StartInput::RunOutput(output(0, "id\n", "")));
        let (s, _) = start_container(&c, &a, &env, &fs, tty, s, StartInput::FlagCode(0));
        let (s, _) = start_container(&c, &a, &env, &fs, tty, s, StartInput::Removed);
        let (_, act) = start_container(&c, &a, &env, &fs, tty, s, StartInput::FlagCode(0));
        act
    };
    assert!(matches!(run(true), StartAction::EnterShell(n) if n == "n"));
    assert!(matches!(run(false), StartAction::PrintName(n) if n == "n"));
}

#[test]
fn start_runs_with_network_when_allowed() {
    let c = ctx(true);
    let mut a = args("img");
    a.network = Some(true);
    a.ports = vec![(80, 8080)];
    a.skel = Some("/cliskel".into());
    let mut cfg = image_config("img");
    cfg.skel = Some("/skel".into());
    let fs = host_fs();
    let env = env_of(&[]);
    let (s, _) = start_container(&c, &a, &env, &fs, false, StartState::AwaitConfig, StartInput::Config(cfg));
    let (_, act) = start_container(&c, &a, &env, &fs, false, s, StartInput::Facts(facts()));
    match act {
        StartAction::ShowRun(v) => {
            assert!(!v.contains(&"--network=none".to_string()));
            assert!(v.contains(&"--publish=8080:80/tcp".to_string()));
            assert!(v.contains(&"--publish=8080:80/udp".to_string()));
            assert_eq!(v.iter().filter(|x| x.ends_with(":/etc/skel:ro")).count(), 1);
            assert!(v.contains(&"--volume=/cliskel:/etc/skel:ro".to_string()));
        },
        _ => panic!("expected the command to show"),
    }
}

#[test]
fn nix_flake_build_result() {
    let builds = Some(vec![vec![("out".to_string(), "/nix/store/o".to_string())]]);
    assert_eq!(flake_build_result(&output(0, "[]", ""), &builds).unwrap(), "/nix/store/o");
    assert_eq!(flake_build_result(&output(3, "", ""), &builds).unwrap_err(), NixError::Failed(3));
    assert_eq!(flake_build_result(&output(0, "x", ""), &None).unwrap_err(), NixError::BadJson);
    assert_eq!(flake_build_result(&output(0, "[]", ""), &Some(vec![])).unwrap_err(), NixError::NoOut);
    let dev = Some(vec![vec![("dev".to_string(), "/d".to_string())]]);
    assert_eq!(flake_build_result(&output(0, "[]", ""), &dev).unwrap_err(), NixError::NoOut);
}

#[test]
fn mounts_on_failure() {
    let mut a = args("img");
    a.mount = vec!["/data".into(), "/missing".into(), "/other".into()];
    let probe = fs_of(&["/data", "/other"], &[]);
    let mut cmd = vec!["run".to_string()];
    let r = mount_additional_mounts("/home/user/ws", &a, &mut cmd, &probe);
    assert!(matches!(r, Err(StartError::MountMissing(m)) if m == "/missing"));
    // the earlier mount is already appended, none after
    assert_eq!(cmd, vec!["run", "--volume=/data:/home/user/ws/data"]);

    let mut g = args("img");
    g.gpus = Some(vec![1, 2]);
    let gpu_fs = fs_of(&[], &["/dev/dri/card1", "/dev/dri/renderD128"]);
    let mut cmd = vec!["run".to_string()];
    let r = gpu_passthrough(&g, &mut cmd, &None, &gpu_fs);
    assert!(matches!(r, Err(StartError::GpuMissing(2))));
    // a missing GPU leaves the arguments unchanged
    assert_eq!(cmd, vec!["run"]);
}
