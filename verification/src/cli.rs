//! Values of the command line: what the user asked for, as plain data.
use vstd::prelude::*;
use crate::config::{ConfigV1, SourceV1};
use crate::context::Context;
use crate::text::{
    chars_of, debug_quoted, dec_text, has_prefix, has_suffix, index_of, index_of_char, is_digit, lemma_dec_text,
    lemma_index_of_first,
    lemma_index_of_from, lemma_parse_dec_text, parse_u32, parse_u32_spec, starts_with, ends_with, str_debug,
    string_of_range, copy_str, str_suffix,
};

verus! {

/// Where the configuration of a container comes from.
#[derive(PartialEq, Eq, Debug, Clone)]
pub enum ConfigArg {
    /// Use configuration from this file
    File(String),

    /// Use no configuration, plain container using this image
    Image(String),

    /// Use following config
    Config(String),

    /// Nix file or flake directory with an optional flake specifier
    Nix(String, Option<String>),
}

/// How a configuration is obtained: ready, or to be read from a file.
#[derive(PartialEq, Debug, Clone)]
pub enum ConfigLoad {
    /// The configuration, complete.
    Ready(ConfigV1),
    /// The configuration is in this file.
    FromFile(String),
}

/// Whether an argument names a configuration file.
pub open spec fn names_file(s: Seq<char>) -> bool {
    ||| has_prefix(s, "./"@)
    ||| has_prefix(s, "."@)
    ||| has_prefix(s, "/"@)
    ||| has_prefix(s, "~/"@)
    ||| has_suffix(s, ".toml"@)
}

/// The view of a [`ConfigArg`]: kind and text.
pub open spec fn config_arg_parsed(input: Seq<char>, r: ConfigArg) -> bool {
    if names_file(input) {
        r matches ConfigArg::File(p) && p@ == input
    } else if has_prefix(input, "@"@) {
        r matches ConfigArg::Config(n) && n@ == input.subrange(1, input.len() as int)
    } else {
        r matches ConfigArg::Image(i) && i@ == input
    }
}

/// A value that does not start with `.`, `/`, `~/` or `@` and does not end
/// with `.toml` names an image, whole, whatever `/` or `:` it holds inside
/// (as a registry reference such as `ghcr.io/owner/image:tag` does); one
/// that starts with `/` or `.` names a file; one that starts with `@` (and
/// does not end with `.toml`) names the configuration after the `@`.
pub proof fn law_image_reference(input: Seq<char>, a: ConfigArg)
    requires
        config_arg_parsed(input, a),
    ensures
        (input.len() > 0 ==> input[0] != '.' && input[0] != '/' && input[0] != '@')
            && !(input.len() >= 2 && input[0] == '~' && input[1] == '/')
            && !(input.len() >= 5 && input[input.len() - 5] == '.' && input[input.len() - 4] == 't'
                && input[input.len() - 3] == 'o' && input[input.len() - 2] == 'm' && input[input.len() - 1] == 'l')
            ==> (a matches ConfigArg::Image(i) && i@ == input),
        input.len() > 0 && (input[0] == '/' || input[0] == '.') ==> (a matches ConfigArg::File(p) && p@ == input),
        input.len() > 0 && input[0] == '@'
            && !(input.len() >= 5 && input[input.len() - 5] == '.' && input[input.len() - 4] == 't'
                && input[input.len() - 3] == 'o' && input[input.len() - 2] == 'm' && input[input.len() - 1] == 'l')
            ==> (a matches ConfigArg::Config(n) && n@ == input.subrange(1, input.len() as int)),
{
    reveal_strlit("./");
    reveal_strlit(".");
    reveal_strlit("/");
    reveal_strlit("~/");
    reveal_strlit(".toml");
    reveal_strlit("@");
    if input.len() > 0 && (input[0] == '/' || input[0] == '.') {
        if input[0] == '/' {
            assert(input.subrange(0, 1) =~= "/"@);
        } else {
            assert(input.subrange(0, 1) =~= "."@);
        }
    }
    if has_prefix(input, "./"@) {
        assert(input.subrange(0, 2)[0] == input[0]);
    }
    if has_prefix(input, "."@) {
        assert(input.subrange(0, 1)[0] == input[0]);
    }
    if has_prefix(input, "/"@) {
        assert(input.subrange(0, 1)[0] == input[0]);
    }
    if has_prefix(input, "~/"@) {
        assert(input.subrange(0, 2)[0] == input[0]);
        assert(input.subrange(0, 2)[1] == input[1]);
    }
    if has_prefix(input, "@"@) {
        assert(input.subrange(0, 1)[0] == input[0]);
    }
    if input.len() > 0 && input[0] == '@' {
        assert(input.subrange(0, 1) =~= "@"@);
    }
    if has_suffix(input, ".toml"@) {
        let t = input.subrange(input.len() - 5, input.len() as int);
        assert(t[0] == input[input.len() - 5]);
        assert(t[1] == input[input.len() - 4]);
        assert(t[2] == input[input.len() - 3]);
        assert(t[3] == input[input.len() - 2]);
        assert(t[4] == input[input.len() - 1]);
    }
}

impl ConfigArg {
    /// Parses the value given on the command line: a path (starting with `.`,
    /// `/` or `~/`, or ending with `.toml`), a configuration name after `@`, or
    /// an image otherwise.
    pub fn parse(input: &str) -> (r: Result<Self, String>)
        ensures
            r matches Ok(a) && config_arg_parsed(input@, a),
    {
        if starts_with(input, "./") || starts_with(input, ".") || starts_with(input, "/") || starts_with(input, "~/")
            || ends_with(input, ".toml")
        {
            // well no image is gonna end with .toml? right?
            // it must be a path
            Ok(Self::File(copy_str(input)))
        } else if starts_with(input, "@") {
            // @ is prefix for a config
            proof {
                reveal_strlit("@");
            }
            Ok(Self::Config(str_suffix(input, 1)))
        } else {
            // assume an image
            Ok(Self::Image(copy_str(input)))
        }
    }

    /// Converts the argument into a configuration, or the file to read it from.
    pub fn into_config(self, ctx: &Context) -> (r: ConfigLoad)
        ensures
            match self {
                ConfigArg::File(p) => r == ConfigLoad::FromFile(p),
                ConfigArg::Config(n) => r matches ConfigLoad::FromFile(p) && p@ == ctx.config_file_path(n@),
                ConfigArg::Image(i) => r matches ConfigLoad::Ready(c) && c.is_blank()
                    && c.source == SourceV1::Image(i),
                ConfigArg::Nix(p, s) => r matches ConfigLoad::Ready(c) && c.is_blank()
                    && c.source == SourceV1::Nix(p, s),
            },
    {
        match self {
            Self::File(x) => ConfigLoad::FromFile(x),
            Self::Config(x) => ctx.find_config(x.as_str()),
            // basically an empty config with only the source set
            Self::Image(x) => {
                let mut c = ConfigV1::default();
                c.source = SourceV1::Image(x);
                ConfigLoad::Ready(c)
            },
            Self::Nix(p, s) => {
                let mut c = ConfigV1::default();
                c.source = SourceV1::Nix(p, s);
                ConfigLoad::Ready(c)
            },
        }
    }
}

/// The message for a port that does not parse.
pub open spec fn invalid_port_message(raw: Seq<char>) -> Seq<char> {
    "Invalid port "@ + str_debug(raw)
}

/// Parses one port.
pub open spec fn port_result(raw: Seq<char>) -> Result<u32, Seq<char>> {
    match parse_u32_spec(raw) {
        Some(p) => Ok(p),
        None => Err(invalid_port_message(raw)),
    }
}

/// The ports of `PORT[:HOST_PORT]`: a single port maps to itself.
pub open spec fn ports_spec(input: Seq<char>) -> Result<(u32, u32), Seq<char>> {
    let k = index_of(input, ':');
    if k < input.len() {
        let left = input.subrange(0, k);
        let right = input.subrange(k + 1, input.len() as int);
        match (port_result(left), port_result(right)) {
            (Ok(a), Ok(b)) => Ok((a, b)),
            (Err(e), _) => Err(e),
            (Ok(_), Err(e)) => Err(e),
        }
    } else {
        match port_result(input) {
            Ok(p) => Ok((p, p)),
            Err(e) => Err(e),
        }
    }
}

/// The view of the result of [`parse_ports`].
pub open spec fn ports_result_view(r: Result<(u32, u32), String>) -> Result<(u32, u32), Seq<char>> {
    match r {
        Ok(p) => Ok(p),
        Err(e) => Err(e@),
    }
}

fn parse_port(raw: &str) -> (r: Result<u32, String>)
    ensures
        match r {
            Ok(p) => port_result(raw@) == Ok::<u32, Seq<char>>(p),
            Err(e) => port_result(raw@) == Err::<u32, Seq<char>>(e@),
        },
{
    match parse_u32(raw) {
        Some(p) => Ok(p),
        None => {
            let mut msg = copy_str("Invalid port ");
            let q = debug_quoted(raw);
            crate::text::push_str(&mut msg, q.as_str());
            Err(msg)
        },
    }
}

/// Parses `PORT[:HOST_PORT]` (container port, host port); a single port is
/// published on the same host port.
pub fn parse_ports(input: &str) -> (r: Result<(u32, u32), String>)
    ensures
        ports_result_view(r) == ports_spec(input@),
{
    let cs = chars_of(input);
    let k = index_of_char(&cs, ':');
    if k < cs.len() {
        let left = string_of_range(&cs, 0, k);
        let right = string_of_range(&cs, k + 1, cs.len());
        let a = parse_port(left.as_str())?;
        let b = parse_port(right.as_str())?;
        Ok((a, b))
    } else {
        let port = parse_port(input)?;
        // map it to itself
        Ok((port, port))
    }
}

/// Arguments of `start`.
#[derive(Debug, Clone)]
pub struct CmdStartArgs {
    /// Enter shell after container initialization finishes
    pub enter: bool,

    /// Name of the new container (if not set a randomly generated name will be used)
    pub name: Option<String>,

    /// Set container default shell
    pub shell: Option<String>,

    /// Path to directory which will be used as /etc/skel inside the container
    pub skel: Option<String>,

    /// Run command on init, ran before all other scripts (ran using `/bin/sh`)
    pub on_init_pre: Vec<String>,

    /// Run command on init, ran after all other scripts (ran using `/bin/sh`)
    pub on_init_post: Vec<String>,

    /// Mount additional paths inside workspace
    pub mount: Vec<String>,

    /// Environment variables to set inside the container
    pub env: Vec<String>,

    /// Use gvisor runtime for better sandboxing
    pub gvisor: Option<bool>,

    /// Set network access permission for the container
    pub network: Option<bool>,

    /// Pass through pipewire
    pub pipewire: Option<bool>,

    /// Pass through pulseaudio
    pub pulseaudio: Option<bool>,

    /// Passes wayland compositor through, pokes holes in sandbox, allows r/w access to clipboard
    pub wayland: Option<bool>,

    /// Pass through GPUs by their index, 0 for all of them
    pub gpus: Option<Vec<u8>>,

    /// Pass through ssh-agent socket
    pub ssh_agent: Option<bool>,

    /// Pass through session dbus socket, allows command execution on host!
    pub session_bus: Option<bool>,

    /// Pass through container port to host (both TCP and UDP)
    pub ports: Vec<(u32, u32)>,

    /// Add capabilities, or drop them with by prefixing `!cap`
    pub capabilities: Vec<String>,

    /// File, image or config to use to start a container
    pub config: ConfigArg,

    /// Pass rest of args to engine verbatim
    pub engine_args: Vec<String>,
}

/// Arguments of `shell`.
#[derive(Debug, Clone)]
pub struct CmdShellArgs {
    /// Use a specific shell
    pub shell: Option<String>,

    /// Name or the ID of the container
    pub name: String,
}

/// Arguments of `exec`.
#[derive(Debug, Clone)]
pub struct CmdExecArgs {
    /// Execute the command in a shell, if value is not specified then defaults to /bin/sh
    pub shell: Option<String>,

    /// Execute command in a login shell
    pub login: bool,

    /// Name or the ID of the container
    pub name: String,

    /// The command and its arguments
    pub command: Vec<String>,
}

/// Arguments of `exists`.
#[derive(Debug, Clone)]
pub struct CmdExistsArgs {
    /// Name or the ID of the container
    pub name: String,
}

/// Arguments of `config`.
#[derive(Debug, Clone)]
pub struct CmdConfigArgs {
    /// Show all options for a config
    pub options: bool,

    /// Show example config
    pub example: bool,

    /// Path to file, name of image or @config to inspect
    pub config: Option<ConfigArg>,
}

/// Arguments of `list`.
#[derive(Debug, Clone)]
pub struct CmdListArgs {
    /// List containers one per line with properties delimited by a tab
    pub raw: bool,

    /// Only show containers started in this directory
    pub here: bool,
}

/// Arguments of `logs`.
#[derive(Debug, Clone)]
pub struct CmdLogsArgs {
    /// Follow the logs
    pub follow: bool,

    /// Name or the ID of the container
    pub name: String,
}

/// Arguments of `kill`.
#[derive(Debug, Clone)]
pub struct CmdKillArgs {
    /// Do not ask for confirmation
    pub yes: bool,

    /// Delay before container forcibly terminated (in seconds)
    pub timeout: u32,

    /// Name or the ID of the container
    pub name: String,
}

/// Arguments of `config extract`.
#[derive(Debug, Clone)]
pub struct CmdConfigExtractArgs {
    /// Container image to use
    pub image: String,
}

/// Arguments of `config inspect`.
#[derive(Debug, Clone)]
pub struct CmdConfigInspectArgs {
    /// Path to file, name of image or @config to inspect
    pub config: String,
}

/// Subcommands of `config`.
#[derive(Debug)]
pub enum ConfigCommands {
    /// Extract container config from image
    Extract(CmdConfigExtractArgs),

    /// Inspect a config, can be used to check if syntax is correct
    Inspect(CmdConfigInspectArgs),

    /// Show all options useable in a config
    Options,
}

/// Arguments of `image build`.
#[derive(Debug, Clone)]
pub struct CmdImageBuildArgs {
    /// Tag to set for the image (defaults to timestamp)
    pub tag: Option<String>,

    /// Disable caching of layers, force rebuild whole image
    pub no_cache: bool,

    /// Set build directory for the container (defaults to current dir)
    pub build_dir: Option<String>,

    /// Copy dotfiles inside the container as /etc/skel
    pub dotfiles: Option<String>,

    /// Containerfile to use to build the image (defaults to Containerfile or Dockerfile)
    pub containerfile: Option<String>,
}

/// Subcommands of `image`.
#[derive(Debug)]
pub enum ImageCommands {
    /// Build image for box
    Build(CmdImageBuildArgs),
}

/// Used to run autocompletion functions
#[derive(Debug, Clone, Copy, PartialEq, Eq)]
pub enum ShellCompletionType {
    /// Complete all configs
    Config,

    /// Completes running containers
    Container,
}

/// A port given alone is published on the same host port, and a pair of
/// ports is read as the container port then the host port.
pub proof fn law_ports_read_back(container: u32, host: u32)
    ensures
        ports_spec(dec_text(container as nat)) == Ok::<(u32, u32), Seq<char>>((container, container)),
        ports_spec(dec_text(container as nat) + ":"@ + dec_text(host as nat)) == Ok::<(u32, u32), Seq<char>>((container, host)),
{
    let a = dec_text(container as nat);
    let b = dec_text(host as nat);
    lemma_dec_text(container as nat);
    lemma_dec_text(host as nat);
    lemma_parse_dec_text(container);
    lemma_parse_dec_text(host);
    lemma_index_of_from(a, ':', 0);
    if index_of(a, ':') < a.len() {
        assert(is_digit(a[index_of(a, ':')]));
    }
    reveal_strlit(":");
    let s = a + ":"@ + b;
    assert(s[a.len() as int] == ':');
    assert forall|j: int| 0 <= j < a.len() implies s[j] != ':' by {
        assert(s[j] == a[j]);
        assert(is_digit(a[j]));
    }
    lemma_index_of_first(s, ':', a.len() as int);
    assert(s.subrange(0, a.len() as int) =~= a);
    assert(s.subrange(a.len() as int + 1, s.len() as int) =~= b);
}

} // verus!
