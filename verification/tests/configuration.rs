use arcam::cli::{parse_ports, CmdStartArgs, ConfigArg, ConfigLoad};
use arcam::command_ext::{CommandOutput, CommandOutputExt, ExitInfo};
use arcam::config::docs::docs_from;
use arcam::config::{ConfigFile, ConfigV1, SourceV1};
use arcam::context::{get_app_dir, Context};
use arcam::engine::{ContainerInfo, Engine, EngineError, Podman, PodmanContainerInfo, PodmanContainerInfoConfig};
use arcam::vars::ExpandError;

fn ctx() -> Context {
    Context {
        user: "user".to_string(),
        user_home: "/home/user".to_string(),
        user_id: 1000,
        user_gid: 1000,
        cwd: "/work/proj".to_string(),
        dry_run: false,
        app_dir: "/home/user/.config/arcam".to_string(),
        engine: Podman,
    }
}

fn start_args() -> CmdStartArgs {
    CmdStartArgs {
        enter: false,
        name: None,
        shell: Some("/bin/zsh".into()),
        skel: None,
        on_init_pre: vec!["echo 1".into(), "echo 2".into()],
        on_init_post: vec![],
        mount: vec![],
        env: vec![],
        gvisor: None,
        network: Some(true),
        pipewire: None,
        pulseaudio: None,
        wayland: Some(false),
        gpus: Some(vec![1]),
        ssh_agent: None,
        session_bus: None,
        ports: vec![(80, 8080)],
        capabilities: vec!["CHOWN".into()],
        config: ConfigArg::Image("img".into()),
        engine_args: vec![],
    }
}

#[test]
fn merge_prefers_the_command_line() {
    let mut c = ConfigV1::default();
    c.wayland = true;
    c.ports = vec![(1, 2)];
    c.on_init_pre = Some("pre\n".into());
    c.merge_cli(&start_args());
    assert_eq!(c.shell, Some("/bin/zsh".to_string()));
    assert!(c.network);
    assert!(!c.wayland);
    assert_eq!(c.gpus, vec![1]);
    assert_eq!(c.ports, vec![(1, 2), (80, 8080)]);
    assert_eq!(c.capabilities, vec!["CHOWN"]);
    assert_eq!(c.on_init_pre, Some("pre\necho 1\necho 2".to_string()));
    assert_eq!(c.on_init_post, Some("".to_string()));
}

#[test]
fn config_expansion() {
    let mut c = ConfigV1::default();
    c.engine_args = vec!["--name=$N".into()];
    c.skel = Some("${HOME}/skel".into());
    c.env = vec![("K".into(), "${N:-x}".into())];
    let r = c.expand_vars(|k: &str| match k {
        "N" => Some("box".to_string()),
        "HOME" => Some("/h".to_string()),
        _ => None,
    });
    assert!(r.is_ok());
    assert_eq!(c.engine_args, vec!["--name=box"]);
    assert_eq!(c.skel, Some("/h/skel".to_string()));
    assert_eq!(c.env, vec![("K".to_string(), "box".to_string())]);
    let mut d = ConfigV1::default();
    d.engine_args = vec!["${X:?}".into()];
    assert_eq!(d.expand_vars(|_k: &str| None), Err(ExpandError::Undefined("X".to_string())));
}

#[test]
fn config_argument_parsing() {
    assert_eq!(ConfigArg::parse("./box.toml"), Ok(ConfigArg::File("./box.toml".into())));
    assert_eq!(ConfigArg::parse("box.toml"), Ok(ConfigArg::File("box.toml".into())));
    assert_eq!(ConfigArg::parse("@dev"), Ok(ConfigArg::Config("dev".into())));
    assert_eq!(ConfigArg::parse("debian:trixie"), Ok(ConfigArg::Image("debian:trixie".into())));
    match ConfigArg::Config("dev".into()).into_config(&ctx()) {
        ConfigLoad::FromFile(p) => assert_eq!(p, "/home/user/.config/arcam/configs/dev.toml"),
        _ => panic!("expected a file"),
    }
    match ConfigArg::Image("img".into()).into_config(&ctx()) {
        ConfigLoad::Ready(c) => assert_eq!(c.source, SourceV1::Image("img".into())),
        _ => panic!("expected a ready configuration"),
    }
}

#[test]
fn port_parsing() {
    assert_eq!(parse_ports("8080"), Ok((8080, 8080)));
    assert_eq!(parse_ports("80:8080"), Ok((80, 8080)));
    assert_eq!(parse_ports("x:1"), Err("Invalid port \"x\"".to_string()));
    assert_eq!(parse_ports("1:"), Err("Invalid port \"\"".to_string()));
}

#[test]
fn source_text() {
    assert_eq!(SourceV1::Image("fedora".into()).describe(), "Image \"fedora\"");
    assert_eq!(SourceV1::Nix("/f".into(), Some("dev".into())).describe(), "Nix Flake /f#dev");
    assert_eq!(SourceV1::Nix("/f.nix".into(), None).describe(), "Nix File /f.nix");
}

#[test]
fn config_file_holds_the_latest() {
    let mut c = ConfigV1::default();
    c.source = SourceV1::Image("fedora".into());
    c.engine_args = vec!["default".into()];
    let f = ConfigFile::latest(c.clone());
    assert_eq!(f.into_config(), c);
}

#[test]
fn options_documentation() {
    let docs = ConfigV1::docs();
    assert!(docs.starts_with("/// Config schema version (latest: \"1\")\nversion: String\n\n/// Use OCI image for the container source\nimage: String"));
    assert!(docs.contains("/// Passthrough GPUs by their index, use 0 for all\ngpus: Array<u8>\n"));
    assert!(!docs.contains("@skip"));
    assert!(docs.ends_with("engine_args: Array<String>"));
    let d = docs_from(&vec![("Image".into(), vec![" A".into()])], &vec![("x".into(), "Vec<Vec<u8>>".into(), vec![" X".into(), "".into()])]);
    assert_eq!(d, "/// Config schema version (latest: \"1\")\nversion: String\n\n/// A\nimage: String\n\n/// X\n///\nx: Array<Array<u8>>");
}

#[test]
fn context_paths_and_engine() {
    let c = ctx();
    assert_eq!(c.config_dir(), "/home/user/.config/arcam/configs");
    let out = CommandOutput { status: ExitInfo { code: Some(0) }, stdout: b"a\nb\r\n".to_vec(), stderr: vec![] };
    assert_eq!(c.get_cwd_containers(&out), vec!["a", "b"]);
    assert_eq!(out.get_code(), 0);
    let signal = ExitInfo { code: None };
    assert_eq!(signal.get_code(), 1);
    assert_eq!(ExitInfo { code: Some(300) }.get_code(), 1);
    let p = Podman;
    assert_eq!(p.image_exists("img", 0), Ok(true));
    assert_eq!(p.image_exists("img", 2), Err(EngineError::ImageCheck("Error checking does image \"img\" exist".into())));
    assert_eq!(p.container_exists("box", 2), Err(EngineError::ContainerCheck("Error checking if container \"box\" exists".into())));
    assert_eq!(p.exec_args("box", &vec!["rm".into(), "f".into()]), vec!["exec", "--user", "root", "box", "rm", "f"]);
    let info: ContainerInfo = PodmanContainerInfo {
        name: "box".into(),
        config: PodmanContainerInfoConfig { labels: vec![("arcam".into(), "0.1.0".into())] },
    }
    .into();
    assert_eq!(info.label("arcam"), Some("0.1.0".to_string()));
    assert!(!info.has_label("other"));
}

#[test]
fn app_dir_lookup_order() {
    let all = |k: &str| match k {
        "ARCAM_APP_DIR" => Some("/custom".to_string()),
        "XDG_CONFIG_HOME" => Some("/xdg".to_string()),
        "HOME" => Some("/home/u".to_string()),
        _ => None,
    };
    assert_eq!(get_app_dir(&all), Some("/custom".to_string()));
    let xdg = |k: &str| match k {
        "XDG_CONFIG_HOME" => Some("/xdg".to_string()),
        "HOME" => Some("/home/u".to_string()),
        _ => None,
    };
    assert_eq!(get_app_dir(&xdg), Some("/xdg/arcam".to_string()));
    let home = |k: &str| match k {
        "HOME" => Some("/home/u".to_string()),
        _ => None,
    };
    assert_eq!(get_app_dir(&home), Some("/home/u/.config/arcam".to_string()));
    let none = |_k: &str| -> Option<String> { None };
    assert_eq!(get_app_dir(&none), None);
}

#[test]
fn local_state_dir() {
    let c = ctx();
    assert_eq!(c.get_local_state_dir(Some("/state")), "/state/arcam");
    assert_eq!(c.get_local_state_dir(None), format!("/home/{}/.local/state/arcam", c.user));
}

#[test]
fn config_expansion_stops_at_the_first_failure() {
    let get = |k: &str| match k {
        "N" => Some("box".to_string()),
        _ => None,
    };
    let mut c = ConfigV1::default();
    c.engine_args = vec!["$N".into(), "${A:?}".into(), "$N".into()];
    c.skel = Some("$N".into());
    assert_eq!(c.expand_vars(get), Err(ExpandError::Undefined("A".to_string())));
    assert_eq!(c.engine_args, vec!["box", "${A:?}", "$N"]);
    assert_eq!(c.skel, Some("$N".to_string()));

    let mut e = ConfigV1::default();
    e.engine_args = vec!["$N".into()];
    e.env = vec![("K".into(), "$N".into()), ("L".into(), "${B:?}".into()), ("M".into(), "$N".into())];
    assert_eq!(e.expand_vars(get), Err(ExpandError::Undefined("B".to_string())));
    assert_eq!(e.engine_args, vec!["box"]);
    assert_eq!(
        e.env,
        vec![("K".to_string(), "box".to_string()), ("L".to_string(), "${B:?}".to_string()), ("M".to_string(), "$N".to_string())]
    );
}
