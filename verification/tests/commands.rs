use arcam::commands::init_steps::{init_step, InitAction, InitError, InitEvent, InitHost, InitState, ScriptEntry};
use arcam::cli::{CmdConfigInspectArgs, CmdExecArgs, CmdImageBuildArgs, CmdKillArgs, CmdListArgs};
use arcam::command_ext::{CommandLine, CommandOutput, ExitInfo};
use arcam::commands::config_cmd::{get_image_config_args, image_config_next, image_config_result, inspect_config, inspect_source};
use arcam::cli::ConfigLoad;
use arcam::commands::exec::container_exec;
use arcam::commands::gui::{
    find_free_wayland_index, find_free_xorg_index, get_gui_sockets, gui_run, gui_sockets_text, is_gui_running,
    wayland_display_index, xorg_display_index,
};
use arcam::commands::health::container_healthcheck;
use arcam::commands::image::{build_image, build_image_args};
use arcam::commands::init::{
    asroot_script, default_shell, init_dirs, init_user, name_le, needs_exec_bits, script_command, script_order, skel_copy,
    sudoers_lines, user_setup_command, with_exec_bits,
};
use arcam::commands::kill::{kill_container, KillAction, KillInput, KillState};
use arcam::commands::listing::{
    complete_config, complete_containers_args, container_exists_code, containers_listing, detect_shell, print_containers_args,
    print_logs_command, CompletionShell,
};
use arcam::commands::lookup::{lookup_container, LookupAction, LookupInput, LookupState};
use arcam::commands::shell::open_shell;
use arcam::commands::{CommandError, Container};
use arcam::context::Context;
use arcam::engine::{ContainerInfo, Podman};
use arcam::host::PathKind;

fn ctx(dry_run: bool) -> Context {
    Context {
        user: "user".to_string(),
        user_home: "/home/user".to_string(),
        user_id: 1000,
        user_gid: 1000,
        cwd: "/work/proj".to_string(),
        dry_run,
        app_dir: "/home/user/.config/arcam".to_string(),
        engine: Podman,
    }
}

fn info(labels: &[(&str, &str)]) -> ContainerInfo {
    ContainerInfo { name: "box".to_string(), labels: labels.iter().map(|(k, v)| (k.to_string(), v.to_string())).collect() }
}

#[test]
fn exec_in_a_shell() {
    let a = CmdExecArgs { shell: Some("/bin/bash".into()), login: true, name: "box".into(), command: vec!["ls".into(), "-la".into()] };
    let p = container_exec(&ctx(false), &a, "box", &info(&[("container_dir", "/home/user/ws/proj")]), None).unwrap();
    assert_eq!(
        p.args,
        vec![
            "exec", "-it", "--workdir=/home/user/ws/proj", "--user=user", "--env=TERM=xterm", "--env=SHELL=/bin/bash", "box", "/bin/bash",
            "-l", "-c", "ls -la",
        ]
    );
    assert!(!p.dry_run);
}

#[test]
fn exec_verbatim() {
    let a = CmdExecArgs { shell: None, login: false, name: "box".into(), command: vec!["touch".into(), "file.txt".into()] };
    let p = container_exec(&ctx(true), &a, "box", &info(&[("container_dir", "/ws")]), Some("xterm-kitty")).unwrap();
    assert_eq!(p.args, vec!["exec", "-it", "--workdir=/ws", "--user=user", "--env=TERM=xterm-kitty", "box", "touch", "file.txt"]);
    assert!(p.dry_run);
    let r = container_exec(&ctx(false), &a, "box", &info(&[]), None);
    assert_eq!(r.unwrap_err(), CommandError::NotOwned("box".into()));
}

#[test]
fn shell_of_the_user() {
    let p = open_shell(&ctx(false), "box", &info(&[("container_dir", "/ws"), ("user_shell", "/bin/fish")]), None, Some("xterm")).unwrap();
    assert_eq!(
        p.args,
        vec![
            "exec", "-it", "--env=TERM=xterm", "--env=HOME=/home/user", "--env=SHELL=/bin/fish", "--workdir", "/ws", "--user", "user", "box",
            "sh", "-l", "-c", "exec /bin/fish",
        ]
    );
    let r = open_shell(&ctx(false), "box", &info(&[("container_dir", "/ws")]), None, None);
    assert_eq!(r.unwrap_err(), CommandError::MissingLabel("box".into(), "user_shell".into()));
    let r = open_shell(&ctx(false), "box", &info(&[("user_shell", "/bin/sh")]), None, None);
    assert_eq!(r.unwrap_err(), CommandError::NotOwned("box".into()));
    // a shell asked for replaces the one of the user
    let p = open_shell(&ctx(false), "box", &info(&[("container_dir", "/ws")]), Some("/bin/zsh"), Some("xterm")).unwrap();
    assert_eq!(p.args[4], "--env=SHELL=/bin/zsh");
    assert_eq!(p.args[13], "exec /bin/zsh");
    let r = open_shell(&ctx(false), "box", &info(&[("user_shell", "/bin/sh")]), Some("/bin/zsh"), None);
    assert_eq!(r.unwrap_err(), CommandError::NotOwned("box".into()));
}

#[test]
fn lookup_of_the_container() {
    let c = ctx(false);
    let (s, a) = lookup_container(&c, "", LookupState::Start, LookupInput::Begin);
    assert!(matches!(s, LookupState::AwaitCwd));
    assert!(matches!(a, LookupAction::ListCwd(_)));
    let (_, a) = lookup_container(&c, "", LookupState::AwaitCwd, LookupInput::CwdContainers(vec![]));
    assert!(matches!(a, LookupAction::Fail(CommandError::NoCwdContainer)));
    let (s, a) = lookup_container(&c, "box", LookupState::Start, LookupInput::Begin);
    assert!(matches!(&a, LookupAction::CheckExists(v) if v == &vec!["container", "exists", "box"]));
    let (_, a) = lookup_container(&c, "box", s, LookupInput::ExistsCode(1));
    assert!(matches!(a, LookupAction::Fail(CommandError::ContainerMissing(n)) if n == "box"));
    // a dry run does not check
    let (s, a) = lookup_container(&ctx(true), "box", LookupState::Start, LookupInput::Begin);
    assert!(matches!(&a, LookupAction::Inspect(v) if v == &vec!["container", "inspect", "box"]));
    let (_, a) = lookup_container(&ctx(true), "box", s, LookupInput::Inspected(vec![info(&[])]));
    assert!(matches!(a, LookupAction::Found(n, _) if n == "box"));
}

#[test]
fn kill_asks_first() {
    let c = ctx(false);
    let args = CmdKillArgs { yes: false, timeout: 10, name: "box".into() };
    let (s, _) = kill_container(&c, &args, KillState::Start, KillInput::Begin);
    let (s, a) = kill_container(&c, &args, s, KillInput::ExistsCode(0));
    assert!(matches!(a, KillAction::Inspect(_)));
    let (s, a) = kill_container(&c, &args, s, KillInput::Inspected(vec![info(&[("arcam", "0.1.0")])]));
    assert!(matches!(&a, KillAction::Prompt(q) if q == "Are you sure you want to kill container \"box\" ?"));
    let (_, a) = kill_container(&c, &args, s, KillInput::Answer(true));
    assert!(matches!(&a, KillAction::Stop(v) if v == &vec!["container", "stop", "--time", "10", "box"]));
    let (_, a) = kill_container(&c, &args, KillState::AwaitAnswer("box".into()), KillInput::Answer(false));
    assert!(matches!(a, KillAction::Fail(CommandError::Cancelled)));
    let (_, a) = kill_container(&c, &args, KillState::AwaitInspect("box".into()), KillInput::Inspected(vec![info(&[])]));
    assert!(matches!(a, KillAction::Fail(CommandError::NotOwned(_))));
    let yes = CmdKillArgs { yes: true, timeout: 0, name: "box".into() };
    let (_, a) = kill_container(&ctx(true), &yes, KillState::Start, KillInput::Begin);
    assert!(matches!(&a, KillAction::ShowStop(v) if v == &vec!["container", "stop", "--time", "0", "box"]));
}

fn no_files() -> impl Fn(&str) -> PathKind {
    |_p: &str| PathKind::Missing
}

#[test]
fn image_build_arguments() {
    let a = CmdImageBuildArgs { tag: Some("".into()), no_cache: true, build_dir: None, dotfiles: Some("/d".into()), containerfile: None };
    let probe = |p: &str| if p == "Dockerfile" { PathKind::Other } else { PathKind::Missing };
    let v = build_image_args(&a, "/src/img", "20250101T000000", &probe).unwrap();
    assert_eq!(
        v,
        vec![
            "build", "--security-opt", "label=disable", "--file", "Dockerfile", "--tag", "img:20250101T000000", "--no-cache", "--volume",
            "/d:/dotfiles:ro,nocopy", ".",
        ]
    );
    let b = CmdImageBuildArgs { tag: None, no_cache: false, build_dir: Some("ctx".into()), dotfiles: None, containerfile: Some("C".into()) };
    let v = build_image(&b, "/src/img", &no_files()).unwrap();
    assert_eq!(v.len(), 8);
    assert_eq!(v[..6], ["build", "--security-opt", "label=disable", "--file", "C", "--tag"]);
    // a missing tag defaults to the time: NAME:YYYYmmddTHHMMSS
    assert!(v[6].starts_with("img:") && v[6].len() == "img:".len() + 15 && v[6].as_bytes()[4 + 8] == b'T');
    assert!(v[6].bytes().skip(4).enumerate().all(|(i, c)| if i == 8 { c == b'T' } else { c.is_ascii_digit() }));
    assert_eq!(v[7], "ctx");
    assert!(build_image(&CmdImageBuildArgs { containerfile: None, ..b }, "/src/img", &no_files()).is_none());
}

#[test]
fn init_decisions() {
    let u = init_user(Some("me"), Some("1000"), Some("1001")).unwrap();
    assert_eq!((u.uid, u.gid), (1000, 1001));
    assert_eq!(u.home, "/home/me");
    assert_eq!(init_user(None, None, None).unwrap_err(), "HOST_USER is undefined");
    assert_eq!(init_user(Some("me"), Some("1"), None).unwrap_err(), "HOST_USER_GID is undefined");
    assert_eq!(default_shell(false), "/bin/sh");
    let c = user_setup_command(&u, "/bin/bash", false);
    assert_eq!(c.program, "useradd");
    assert_eq!(c.args, vec!["--shell", "/bin/bash", "--home-dir", "/home/me", "--uid", "1000", "--user-group", "--no-create-home", "me"]);
    let c = user_setup_command(&u, "/bin/bash", true);
    assert_eq!(c.program, "usermod");
    assert_eq!(c.args, vec!["--home", "/home/me", "--shell", "/bin/bash", "me"]);
    assert_eq!(skel_copy("/home/me", ".bashrc"), ("/etc/skel/.bashrc".to_string(), "/home/me/.bashrc".to_string()));
    assert_eq!(sudoers_lines(), "Defaults !fqdn\nALL ALL = (ALL) NOPASSWD: ALL\n");
    let s = script_command(false, "me", "/init.d/a.sh");
    assert_eq!((s.program.as_str(), s.args.clone()), ("su", vec!["me".to_string(), "-c".to_string(), "/init.d/a.sh".to_string()]));
    assert!(needs_exec_bits(0o644));
    assert!(!needs_exec_bits(0o744));
    assert_eq!(with_exec_bits(0o644), 0o755);
    assert_eq!(init_dirs(), vec!["/arcam", "/init.d", "/tmp/.X11-unix"]);
    assert!(asroot_script().starts_with("#!/bin/sh\nset -e\n"));
}

#[test]
fn init_scripts_run_in_name_order() {
    let names = vec!["99_post.sh".to_string(), "00_chown.sh".to_string(), "01_pre.sh".to_string(), "Z.sh".to_string(), "a.sh".to_string()];
    assert_eq!(script_order(names), vec!["00_chown.sh", "01_pre.sh", "99_post.sh", "Z.sh", "a.sh"]);
    assert!(name_le("ab", "abc"));
    assert!(!name_le("b", "abc"));
}

#[test]
fn listing_logs_exists_completion() {
    let v = print_containers_args(&ctx(false), &CmdListArgs { raw: false, here: true });
    assert_eq!(
        v,
        vec![
            "container", "ls", "--filter", "label=arcam", "--format", "{{.Names}}\t{{.Image}}\t{{.Labels.host_dir}}\t{{.Ports}}", "--filter",
            "label=host_dir=/work/proj",
        ]
    );
    let l = print_logs_command("box", true);
    assert_eq!((l.program.as_str(), l.args.clone()), ("journalctl", vec!["-t".to_string(), "box".to_string(), "--follow".to_string()]));
    assert_eq!(container_exists_code(false, Some(2), 9), Some(0));
    assert_eq!(container_exists_code(false, None, 0), Some(1));
    assert_eq!(container_exists_code(true, None, 1), Some(1));
    assert_eq!(container_exists_code(true, None, 7), None);
    assert_eq!(complete_config("dev.toml"), Some("@dev".to_string()));
    assert_eq!(complete_config("notes.txt"), None);
    assert_eq!(complete_containers_args(), vec!["container", "ls", "--filter", "label=arcam", "--format", "{{.Names}}"]);
}

#[test]
fn gui_and_config_commands() {
    assert!(is_gui_running(0));
    assert!(!is_gui_running(4));
    assert!(gui_run(true).is_none());
    let c = gui_run(false).unwrap();
    assert_eq!(c.program, "systemd-run");
    assert_eq!(gui_sockets_text(0, 1), "0\n1\n");
    assert_eq!(get_image_config_args("img"), vec!["run", "--rm", "-it", "--entrypoint", "cat", "img", "/arcam/config.toml"]);
    assert_eq!(
        inspect_config("bad.toml", Err("expected `=`".to_string())).unwrap_err(),
        "while parsing config file \"bad.toml\": expected `=`"
    );
    assert!(inspect_config("ok.toml", Ok(arcam::config::ConfigV1::default())).is_ok());
    match inspect_source(&ctx(false), &CmdConfigInspectArgs { config: "./x.toml".into() }) {
        ConfigLoad::FromFile(p) => assert_eq!(p, "./x.toml"),
        _ => panic!("a path names a file"),
    }
    match inspect_source(&ctx(false), &CmdConfigInspectArgs { config: "@dev".into() }) {
        ConfigLoad::FromFile(p) => assert_eq!(p, "/home/user/.config/arcam/configs/dev.toml"),
        _ => panic!("a config name names a file"),
    }
    let cont = Container { engine: Podman, container: "box".into() };
    assert_eq!(cont.describe(), "box");
}

#[test]
fn command_line_text() {
    let c = CommandLine { program: "podman".into(), args: vec!["ps".into(), "-a".into()] };
    assert_eq!(c.get_full_command(), "podman ps -a");
    let o = CommandOutput { status: ExitInfo { code: None }, stdout: vec![], stderr: vec![] };
    assert!(!o.status.success());
}

#[test]
fn containers_listing_text() {
    let out = |s: &str| CommandOutput { status: ExitInfo { code: Some(0) }, stdout: s.as_bytes().to_vec(), stderr: vec![] };
    let o = out("  web\tdebian\t/work/proj\t0.0.0.0:8080->8080/tcp\ndb\tfedora\t/other\t\n");
    assert_eq!(
        containers_listing(&o, "/work/proj"),
        Some("Container \"web\" at /work/proj *\n  image: debian\n  ports: 0.0.0.0:8080->8080/tcp\n\nContainer \"db\" at /other  \n  image: fedora\n".to_string())
    );
    assert_eq!(containers_listing(&out(""), "/x"), Some(String::new()));
    assert_eq!(containers_listing(&out("only\ttwo\n"), "/x"), None);
}

#[test]
fn gui_display_indices() {
    assert_eq!(xorg_display_index(None), Some(0));
    assert_eq!(xorg_display_index(Some(":3")), Some(3));
    assert_eq!(xorg_display_index(Some("host:3")), None);
    assert_eq!(wayland_display_index(None), Some(0));
    assert_eq!(wayland_display_index(Some("wayland-2")), Some(2));
    assert_eq!(wayland_display_index(Some("wayland-x")), None);

    let taken = |p: &str| match p {
        "/tmp/.X11-unix/X0" | "/tmp/.X11-unix/X1" | "/run/user/1000/wayland-1" => PathKind::Other,
        _ => PathKind::Missing,
    };
    assert_eq!(find_free_xorg_index(0, &taken), Some(2));
    assert_eq!(find_free_xorg_index(5, &taken), Some(5));
    assert_eq!(find_free_wayland_index(1000, 0, &taken), Some(0));
    assert_eq!(find_free_wayland_index(1000, 1, &taken), Some(2));
    let all = |_p: &str| PathKind::Other;
    assert_eq!(find_free_xorg_index(u32::MAX - 1, &all), None);
}

#[test]
fn gui_sockets_file() {
    assert_eq!(get_gui_sockets(&gui_sockets_text(1, 2)), Some((1, 2)));
    assert_eq!(get_gui_sockets("3\n"), None);
    assert_eq!(get_gui_sockets("a\n2\n"), None);
}

#[test]
fn completion_shell_detection() {
    assert_eq!(detect_shell(Some("/usr/bin/fish")), Some(CompletionShell::Fish));
    assert_eq!(detect_shell(Some("/bin/bash")), Some(CompletionShell::Bash));
    assert_eq!(detect_shell(Some("/bin/zsh")), Some(CompletionShell::Zsh));
    assert_eq!(detect_shell(Some("/bin/nu")), None);
    assert_eq!(detect_shell(None), None);
}

#[test]
fn escaped_command_text() {
    let c = CommandLine { program: "podman".to_string(), args: vec!["run".to_string(), "a b".to_string()] };
    assert_eq!(c.escaped_text(), "(CMD) \"podman\" \\\n      \"run\" \\\n      \"a b\"\n");
    let e = CommandLine { program: "podman".to_string(), args: vec![] };
    assert_eq!(e.escaped_text(), "(CMD) \"podman\" \\\n");
}

#[test]
fn healthcheck_of_process_files() {
    assert_eq!(container_healthcheck(&vec![40, 31, 5, 100]), (2, true));
    assert_eq!(container_healthcheck(&vec![40, 31]), (2, false));
    assert_eq!(container_healthcheck(&vec![]), (0, false));
    assert_eq!(container_healthcheck(&vec![30]), (0, true));
}

#[test]
fn init_steps_in_order() {
    let (s, a) = init_step(InitState::Start, InitEvent::Begin);
    assert!(matches!(a, InitAction::ReadHost));
    let host = InitHost {
        user: Some("u".into()),
        uid: Some("1000".into()),
        gid: Some("1001".into()),
        bash: true,
        runtime_dir: Some("/run/user/1000".into()),
    };
    let (s, a) = init_step(s, InitEvent::Host(host));
    assert!(matches!(&a, InitAction::Run(l) if l.program == "getent" && l.args == vec!["passwd", "u"]));
    let (s, a) = init_step(s, InitEvent::Status(2));
    assert!(matches!(&a, InitAction::Run(l) if l.program == "useradd" && l.args[1] == "/bin/bash"));
    let (s, a) = init_step(s, InitEvent::Status(0));
    assert!(matches!(&a, InitAction::PrepareHome(h, 1000, 1001) if h == "/home/u"));
    let (s, a) = init_step(s, InitEvent::Finished);
    assert!(matches!(&a, InitAction::Run(l) if l.program == "fc-cache"));
    let (s, a) = init_step(s, InitEvent::NotRun);
    assert!(matches!(a, InitAction::ListSkel));
    let (s, a) = init_step(s, InitEvent::Skel(vec![".config".into()], vec![".bashrc".into()]));
    match &a {
        InitAction::CopySkel(d, f, 1000, 1001) => {
            assert_eq!(d, &vec![("/etc/skel/.config".to_string(), "/home/u/.config".to_string())]);
            assert_eq!(f, &vec![("/etc/skel/.bashrc".to_string(), "/home/u/.bashrc".to_string())]);
        },
        _ => panic!("expected the skeleton copy"),
    }
    let (s, a) = init_step(s, InitEvent::Finished);
    assert!(matches!(&a, InitAction::PrepareRuntime(d, 1000, 1001) if d == "/run/user/1000"));
    let (s, a) = init_step(s, InitEvent::Finished);
    assert!(matches!(a, InitAction::CheckSudo));
    let (s2, a) = init_step(s.clone(), InitEvent::Found(true));
    assert!(matches!(&a, InitAction::AppendSudoers(t) if t == "Defaults !fqdn\nALL ALL = (ALL) NOPASSWD: ALL\n"));
    let (_, a) = init_step(s2, InitEvent::Finished);
    assert!(matches!(&a, InitAction::ListScripts(d) if d == "/init.d"));
    let (s, a) = init_step(s, InitEvent::Found(false));
    assert!(matches!(&a, InitAction::Run(l) if l.program == "passwd" && l.args == vec!["-d", "root"]));
    let (_, a) = init_step(s.clone(), InitEvent::Status(3));
    assert!(matches!(a, InitAction::Fail(InitError::PasswdFailed(3))));
    let (s, _) = init_step(s, InitEvent::Status(0));
    let entries = vec![
        ScriptEntry { name: "99_post.sh".into(), mode: Some(0o644), runnable: true },
        ScriptEntry { name: "01_pre.sh".into(), mode: Some(0o755), runnable: true },
        ScriptEntry { name: "dir".into(), mode: Some(0o755), runnable: false },
    ];
    let (s, a) = init_step(s, InitEvent::Scripts(Some(entries)));
    assert!(matches!(&a, InitAction::MakeExecutable(v) if v == &vec!["/init.d/99_post.sh".to_string()]));
    let (s, a) = init_step(s, InitEvent::Finished);
    assert!(matches!(&a, InitAction::Run(l) if l.program == "su" && l.args == vec!["u", "-c", "/init.d/01_pre.sh"]));
    let (s, a) = init_step(s, InitEvent::Status(0));
    assert!(matches!(&a, InitAction::Run(l) if l.args[2] == "/init.d/99_post.sh"));
    let (_, a) = init_step(s.clone(), InitEvent::Status(1));
    assert!(matches!(a, InitAction::Fail(InitError::ScriptFailed(f)) if f == "/init.d/99_post.sh"));
    let (s, a) = init_step(s, InitEvent::Status(0));
    assert!(matches!(&a, InitAction::WriteFlag(p, t) if p == "/arcam/initialized" && t == "y"));
    let (_, a) = init_step(s, InitEvent::Finished);
    assert!(matches!(a, InitAction::Complete));

    let (_, a) = init_step(InitState::Start, InitEvent::Host(InitHost { user: None, uid: None, gid: None, bash: false, runtime_dir: None }));
    assert!(matches!(a, InitAction::Fail(InitError::Undefined(m)) if m == "HOST_USER is undefined"));
}

#[test]
fn image_config_decisions() {
    let ran = |code: i32, out: &[u8]| CommandOutput { status: ExitInfo { code: Some(code) }, stdout: out.to_vec(), stderr: vec![] };
    assert_eq!(image_config_next("img", &ran(0, b"")).unwrap(), get_image_config_args("img"));
    assert_eq!(image_config_next("img", &ran(1, b"")).unwrap_err(), "Image \"img\" does not exist");
    assert_eq!(image_config_result("img", &ran(0, b"name = 'x'\n\xff")).unwrap(), "name = 'x'\n\u{fffd}");
    assert_eq!(image_config_result("img", &ran(125, b"out")).unwrap_err(), "Failed to extract config from image \"img\"");
}
