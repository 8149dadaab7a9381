//! Container configuration (version 1.1) and the operations on it.
use vstd::prelude::*;
use crate::cli::CmdStartArgs;
use crate::text::{debug_quoted, join, join_strings, push_str, str_debug, copy_str};
use crate::vars::{expand_at, expand_error_name, expand_vars_at, getter_agrees, getter_agrees_at, opt_view, ExpandError};

pub mod docs;

verus! {

/// Where a text with variables stands in a configuration: an engine
/// argument, the skel path, or the value of an environment variable (by
/// index).
#[derive(Debug, Clone, Copy)]
pub enum Place {
    Arg(usize),
    Skel,
    Env(usize),
}

/// The lookup of the references in the text at place `p`, by position and
/// name.
pub open spec fn at_place(lookup: spec_fn(Place, int, Seq<char>) -> Option<Seq<char>>, p: Place) -> spec_fn(int, Seq<char>) -> Option<Seq<char>> {
    |i: int, n: Seq<char>| lookup(p, i, n)
}

/// The lookup that gives every reference to a name the same value, wherever
/// it stands.
pub open spec fn same_everywhere(lookup: spec_fn(Seq<char>) -> Option<Seq<char>>) -> spec_fn(Place, int, Seq<char>) -> Option<Seq<char>> {
    |p: Place, i: int, n: Seq<char>| lookup(n)
}

/// Every answer the getter can give, asked with a place, a position and a
/// name, agrees with `lookup`.
pub open spec fn getter_agrees_placed<F: Fn(Place, usize, &str) -> Option<String>>(getter: F, lookup: spec_fn(Place, int, Seq<char>) -> Option<Seq<char>>) -> bool {
    forall|q: Place, p: usize, x: &str, y: Option<String>| #[trigger] call_ensures(getter, (q, p, x), y) ==> opt_view(y) == lookup(q, p as int, x@)
}

/// Source of the container.
#[derive(Debug, Clone, PartialEq)]
pub enum SourceV1 {
    /// Use OCI image for the container source
    Image(String),

    /// Nix file or flake directory with specifier
    Nix(String, Option<String>),
}

/// The text that describes a source.
pub open spec fn source_text(s: SourceV1) -> Seq<char> {
    match s {
        SourceV1::Image(image) => "Image "@ + str_debug(image@),
        SourceV1::Nix(path, Some(spec)) => "Nix Flake "@ + path@ + "#"@ + spec@,
        SourceV1::Nix(path, None) => "Nix File "@ + path@,
    }
}

impl SourceV1 {
    /// Describes the source for humans (`Image "name"`, `Nix Flake path#spec`
    /// or `Nix File path`).
    pub fn describe(&self) -> (r: String)
        ensures
            r@ == source_text(*self),
    {
        match self {
            Self::Image(image) => {
                let mut r = copy_str("Image ");
                let q = debug_quoted(image.as_str());
                push_str(&mut r, q.as_str());
                r
            },
            Self::Nix(path, spec) => match spec {
                Some(spec) => {
                    let mut r = copy_str("Nix Flake ");
                    push_str(&mut r, path.as_str());
                    push_str(&mut r, "#");
                    push_str(&mut r, spec.as_str());
                    r
                },
                None => {
                    let mut r = copy_str("Nix File ");
                    push_str(&mut r, path.as_str());
                    r
                },
            },
        }
    }
}

impl Default for SourceV1 {
    fn default() -> (r: Self)
        ensures
            r matches SourceV1::Image(i) && i@ == Seq::<char>::empty(),
    {
        // this is just to implement default
        Self::Image(String::new())
    }
}

/// Single configuration for a container, contains default settings and optional settings per
/// engine that get applied over the default settings
#[derive(Debug, Clone, PartialEq)]
pub struct ConfigV1 {
    /// Path to the config
    pub path: Option<String>,

    /// Name of the config
    pub name: Option<String>,

    /// Source for the container
    pub source: SourceV1,

    /// Optional path to directory to use as /etc/skel (static dotfiles)
    ///
    /// Environ vars are expanded
    pub skel: Option<String>,

    /// Default user shell
    pub shell: Option<String>,

    /// Use gvisor runtime for better sandboxing
    pub gvisor: bool,

    /// Set network access
    pub network: bool,

    /// Passthrough pipewire
    pub pipewire: bool,

    /// Passthrough pulseaudio
    pub pulseaudio: bool,

    /// Passthrough wayland compositor socket, high security impact, allows clipboard access
    pub wayland: bool,

    /// Passthrough GPUs by their index, use 0 for all
    pub gpus: Vec<u8>,

    /// Passthrough ssh-agent socket, security impact is unknown
    pub ssh_agent: bool,

    /// Passthrough D-BUS session bus, maximum security impact allows arbitrary code execution
    pub session_bus: bool,

    /// Path to mount as a volume, basically shorthand for `--volume=<name>:<path>`
    pub persist: Vec<(String, String)>,

    /// Same as `persist` but the path is chowned as user on init
    pub persist_user: Vec<(String, String)>,

    /// Run command before all other scripts (ran using `/bin/sh`)
    pub on_init_pre: Option<String>,

    /// Run command after all other scripts (ran using `/bin/sh`)
    pub on_init_post: Option<String>,

    /// Runs following shell script and pass all arguments verbatim to it,
    /// script itself is responsible for running arcam start with all the arguments
    pub host_pre_init: Option<String>,

    /// Pass through container port to host (both TCP and UDP)
    pub ports: Vec<(u32, u32)>,

    /// Environment variables to set (name, value)
    ///
    /// Environ vars are expanded
    pub env: Vec<(String, String)>,

    /// Add capabilities, or drop them with by prefixing `!cap`
    pub capabilities: Vec<String>,

    /// Args passed to the engine
    ///
    /// Environ vars are expanded
    pub engine_args: Vec<String>,
}

impl ConfigV1 {
    /// Version of this configuration schema.
    pub const VERSION: u32 = 1;

    /// Every option has its default value (the source aside).
    pub open spec fn is_blank(&self) -> bool {
        &&& self.path is None
        &&& self.name is None
        &&& self.skel is None
        &&& self.shell is None
        &&& !self.gvisor
        &&& !self.network
        &&& !self.pipewire
        &&& !self.pulseaudio
        &&& !self.wayland
        &&& self.gpus@.len() == 0
        &&& !self.ssh_agent
        &&& !self.session_bus
        &&& self.persist@.len() == 0
        &&& self.persist_user@.len() == 0
        &&& self.on_init_pre is None
        &&& self.on_init_post is None
        &&& self.host_pre_init is None
        &&& self.ports@.len() == 0
        &&& self.env@.len() == 0
        &&& self.capabilities@.len() == 0
        &&& self.engine_args@.len() == 0
    }
}

impl Default for ConfigV1 {
    fn default() -> (r: Self)
        ensures
            r.is_blank(),
            r.source matches SourceV1::Image(i) && i@ == Seq::<char>::empty(),
    {
        ConfigV1 {
            path: None,
            name: None,
            source: SourceV1::default(),
            skel: None,
            shell: None,
            gvisor: false,
            network: false,
            pipewire: false,
            pulseaudio: false,
            wayland: false,
            gpus: Vec::new(),
            ssh_agent: false,
            session_bus: false,
            persist: Vec::new(),
            persist_user: Vec::new(),
            on_init_pre: None,
            on_init_post: None,
            host_pre_init: None,
            ports: Vec::new(),
            env: Vec::new(),
            capabilities: Vec::new(),
            engine_args: Vec::new(),
        }
    }
}

/// The text of an optional string, empty when there is none.
pub open spec fn opt_text(o: Option<String>) -> Seq<char> {
    match o {
        Some(s) => s@,
        None => Seq::empty(),
    }
}

/// `o` is `Some` with this text.
pub open spec fn is_some_text(o: Option<String>, t: Seq<char>) -> bool {
    o matches Some(s) && s@ == t
}

/// What a command line option gives: its value when set, else the current one.
pub open spec fn or_current<T>(cli: Option<T>, current: T) -> T {
    match cli {
        Some(v) => v,
        None => current,
    }
}

fn clone_opt_string(o: &Option<String>) -> (r: Option<String>)
    ensures
        r == *o,
{
    match o {
        Some(s) => Some(s.clone()),
        None => None,
    }
}

fn clone_u8s(v: &Vec<u8>) -> (r: Vec<u8>)
    ensures
        r@ == v@,
{
    let mut r: Vec<u8> = Vec::new();
    let mut i: usize = 0;
    while i < v.len()
        invariant
            i <= v.len(),
            r@ == v@.take(i as int),
        decreases v.len() - i,
    {
        r.push(v[i]);
        i = i + 1;
        assert(r@ =~= v@.take(i as int));
    }
    assert(v@.take(v.len() as int) =~= v@);
    r
}

fn pick_bool(cli: Option<bool>, current: bool) -> (r: bool)
    ensures
        r == or_current(cli, current),
{
    match cli {
        Some(v) => v,
        None => current,
    }
}

fn pick_string(cli: &Option<String>, current: &Option<String>) -> (r: Option<String>)
    ensures
        r == (if cli is Some { *cli } else { *current }),
{
    if cli.is_some() {
        clone_opt_string(cli)
    } else {
        clone_opt_string(current)
    }
}

fn pick_u8s(cli: &Option<Vec<u8>>, current: &Vec<u8>) -> (r: Vec<u8>)
    ensures
        r@ == match cli {
            Some(g) => g@,
            None => current@,
        },
{
    match cli {
        Some(g) => clone_u8s(g),
        None => clone_u8s(current),
    }
}

fn concat_ports(a: &Vec<(u32, u32)>, b: &Vec<(u32, u32)>) -> (r: Vec<(u32, u32)>)
    ensures
        r@ == a@ + b@,
{
    let mut r: Vec<(u32, u32)> = Vec::new();
    let mut i: usize = 0;
    while i < a.len()
        invariant
            i <= a.len(),
            r@ == a@.take(i as int),
        decreases a.len() - i,
    {
        r.push(a[i]);
        i = i + 1;
        assert(r@ =~= a@.take(i as int));
    }
    assert(a@.take(a.len() as int) =~= a@);
    let mut i: usize = 0;
    while i < b.len()
        invariant
            i <= b.len(),
            r@ == a@ + b@.take(i as int),
        decreases b.len() - i,
    {
        r.push(b[i]);
        i = i + 1;
        assert(r@ =~= a@ + b@.take(i as int));
    }
    assert(b@.take(b.len() as int) =~= b@);
    r
}

fn concat_strings(a: &Vec<String>, b: &Vec<String>) -> (r: Vec<String>)
    ensures
        r@ == a@ + b@,
{
    let mut r: Vec<String> = Vec::new();
    let mut i: usize = 0;
    while i < a.len()
        invariant
            i <= a.len(),
            r@ == a@.take(i as int),
        decreases a.len() - i,
    {
        r.push(a[i].clone());
        i = i + 1;
        assert(r@ =~= a@.take(i as int));
    }
    assert(a@.take(a.len() as int) =~= a@);
    let mut i: usize = 0;
    while i < b.len()
        invariant
            i <= b.len(),
            r@ == a@ + b@.take(i as int),
        decreases b.len() - i,
    {
        r.push(b[i].clone());
        i = i + 1;
        assert(r@ =~= a@ + b@.take(i as int));
    }
    assert(b@.take(b.len() as int) =~= b@);
    r
}

/// `init` followed by the lines of the command line joined with newlines.
fn append_lines(current: &mut Option<String>, lines: &Vec<String>)
    ensures
        is_some_text(*final(current), opt_text(*old(current)) + join(lines.deep_view(), "\n"@)),
{
    let mut text = match current {
        Some(s) => s.clone(),
        None => String::new(),
    };
    let joined = join_strings(lines, "\n");
    push_str(&mut text, joined.as_str());
    *current = Some(text);
}

impl ConfigV1 {
    /// `self` is `old` merged with the command line `args` (see `merge_cli`).
    pub open spec fn merged(&self, old: ConfigV1, args: CmdStartArgs) -> bool {
        &&& self.shell == (if args.shell is Some { args.shell } else { old.shell })
        &&& self.gvisor == or_current(args.gvisor, old.gvisor)
        &&& self.network == or_current(args.network, old.network)
        &&& self.pipewire == or_current(args.pipewire, old.pipewire)
        &&& self.pulseaudio == or_current(args.pulseaudio, old.pulseaudio)
        &&& self.wayland == or_current(args.wayland, old.wayland)
        &&& self.gpus@ == match args.gpus {
            Some(g) => g@,
            None => old.gpus@,
        }
        &&& self.ssh_agent == or_current(args.ssh_agent, old.ssh_agent)
        &&& self.session_bus == or_current(args.session_bus, old.session_bus)
        &&& self.ports@ == old.ports@ + args.ports@
        &&& self.capabilities@ == old.capabilities@ + args.capabilities@
        &&& is_some_text(self.on_init_pre, opt_text(old.on_init_pre) + join(args.on_init_pre.deep_view(), "\n"@))
        &&& is_some_text(self.on_init_post, opt_text(old.on_init_post) + join(args.on_init_post.deep_view(), "\n"@))
        &&& self.path == old.path
        &&& self.name == old.name
        &&& self.source == old.source
        &&& self.skel == (if args.skel is Some { args.skel } else { old.skel })
        &&& self.persist == old.persist
        &&& self.persist_user == old.persist_user
        &&& self.host_pre_init == old.host_pre_init
        &&& self.env == old.env
        &&& self.engine_args == old.engine_args
    }

    /// Merges cli into the config: options set on the command line replace
    /// those of the config, ports and capabilities are appended, and the init
    /// commands of the command line are appended (joined by newlines) to those
    /// of the config.
    pub fn merge_cli(&mut self, args: &CmdStartArgs)
        ensures
            final(self).merged(*old(self), *args),
    {
        self.shell = pick_string(&args.shell, &self.shell);
        // the skeleton of the command line replaces that of the config
        self.skel = pick_string(&args.skel, &self.skel);
        self.gvisor = pick_bool(args.gvisor, self.gvisor);
        self.network = pick_bool(args.network, self.network);
        self.pipewire = pick_bool(args.pipewire, self.pipewire);
        self.pulseaudio = pick_bool(args.pulseaudio, self.pulseaudio);
        self.wayland = pick_bool(args.wayland, self.wayland);
        self.gpus = pick_u8s(&args.gpus, &self.gpus);
        self.ssh_agent = pick_bool(args.ssh_agent, self.ssh_agent);
        self.session_bus = pick_bool(args.session_bus, self.session_bus);
        self.ports = concat_ports(&self.ports, &args.ports);
        self.capabilities = concat_strings(&self.capabilities, &args.capabilities);

        // append on init to the config value
        append_lines(&mut self.on_init_pre, &args.on_init_pre);
        append_lines(&mut self.on_init_post, &args.on_init_post);
    }

    /// Expands variables in select properties (see `expand_vars_at`), asking
    /// `getter` for the value of each name, wherever it stands.
    ///
    /// Whenever every answer of `getter` agrees with `lookup`, the result is
    /// that of `expand_vars_at` where every reference to a name takes the
    /// value that `lookup` gives it (`same_everywhere`).
    pub fn expand_vars<T: Fn(&str) -> Option<String>>(&mut self, getter: T) -> (r: Result<(), ExpandError>)
        requires
            forall|x: &str| #[trigger] getter.requires((x,)),
        ensures
            forall|lookup: spec_fn(Seq<char>) -> Option<Seq<char>>| #[trigger] getter_agrees(getter, lookup) ==> {
                &&& (r is Ok <==> old(self).expansions_succeed(same_everywhere(lookup)))
                &&& r is Ok ==> final(self).expanded_from(*old(self), same_everywhere(lookup))
                &&& r matches Err(ExpandError::Undefined(n)) ==> {
                    ||| exists|k: int| #[trigger] final(self).failed_at_arg(*old(self), same_everywhere(lookup), k, n@)
                    ||| final(self).failed_at_skel(*old(self), same_everywhere(lookup), n@)
                    ||| exists|k: int| #[trigger] final(self).failed_at_env(*old(self), same_everywhere(lookup), k, n@)
                }
            },
    {
        let g = &getter;
        let placed = |q: Place, p: usize, x: &str| -> (a: Option<String>)
            requires
                forall|y: &str| #[trigger] g.requires((y,)),
            ensures
                forall|lookup: spec_fn(Seq<char>) -> Option<Seq<char>>| #[trigger] getter_agrees(*g, lookup) ==> opt_view(a) == lookup(x@),
            { g(x) };
        let r = self.expand_vars_at(placed);
        proof {
            assert forall|lookup: spec_fn(Seq<char>) -> Option<Seq<char>>| #[trigger] getter_agrees(getter, lookup)
                implies getter_agrees_placed(placed, same_everywhere(lookup)) by {
                assert(getter_agrees(*g, lookup));
            }
        }
        r
    }

    /// Expands variables in select properties: the engine arguments, the
    /// skel path and the values (not the names) of the environment.
    ///
    /// The getter is asked each name with the place of the text in the
    /// configuration and the position of the reference in it, so each
    /// reference may get a value of its own.
    ///
    /// Whenever every answer of `getter` agrees with `lookup`: the result is
    /// `Ok` exactly when each of those expansions succeeds, and then each of
    /// those properties holds its expansion; nothing else changes. Values are
    /// expanded in order (engine arguments, skel path, environment values):
    /// on the first that fails, the error names its variable, the values
    /// before it are already expanded and the others are untouched.
    pub fn expand_vars_at<T: Fn(Place, usize, &str) -> Option<String>>(&mut self, getter: T) -> (r: Result<(), ExpandError>)
        requires
            forall|q: Place, p: usize, x: &str| #[trigger] getter.requires((q, p, x)),
        ensures
            forall|lookup: spec_fn(Place, int, Seq<char>) -> Option<Seq<char>>| #[trigger] getter_agrees_placed(getter, lookup) ==> {
                &&& (r is Ok <==> old(self).expansions_succeed(lookup))
                &&& r is Ok ==> final(self).expanded_from(*old(self), lookup)
                &&& r matches Err(ExpandError::Undefined(n)) ==> {
                    ||| exists|k: int| #[trigger] final(self).failed_at_arg(*old(self), lookup, k, n@)
                    ||| final(self).failed_at_skel(*old(self), lookup, n@)
                    ||| exists|k: int| #[trigger] final(self).failed_at_env(*old(self), lookup, k, n@)
                }
            },
    {
        let ghost old_self = *self;
        // expand engine args
        let mut i: usize = 0;
        while i < self.engine_args.len()
            invariant
                old_self == *old(self),
                i <= self.engine_args.len(),
                self.engine_args.len() == old_self.engine_args.len(),
                forall|q: Place, p: usize, x: &str| #[trigger] getter.requires((q, p, x)),
                forall|k: int| i <= k < self.engine_args.len() ==> self.engine_args@[k] == old_self.engine_args@[k],
                forall|lookup: spec_fn(Place, int, Seq<char>) -> Option<Seq<char>>| #[trigger] getter_agrees_placed(getter, lookup) ==>
                    forall|k: int| 0 <= k < i ==> expand_at(old_self.engine_args@[k]@, at_place(lookup, Place::Arg(k as usize))) == Ok::<Seq<char>, Seq<char>>(#[trigger] self.engine_args@[k]@),
                self.skel == old_self.skel,
                self.env == old_self.env,
                self.same_unexpanded(old_self),
            decreases self.engine_args.len() - i,
        {
            let g = &getter;
            let at = |p: usize, x: &str| -> (a: Option<String>)
                requires
                    forall|q: Place, j: usize, y: &str| #[trigger] g.requires((q, j, y)),
                ensures
                    forall|lookup: spec_fn(Place, int, Seq<char>) -> Option<Seq<char>>| #[trigger] getter_agrees_placed(*g, lookup) ==> opt_view(a) == lookup(Place::Arg(i), p as int, x@),
                { g(Place::Arg(i), p, x) };
            proof {
                assert forall|lookup: spec_fn(Place, int, Seq<char>) -> Option<Seq<char>>| #[trigger] getter_agrees_placed(getter, lookup)
                    implies getter_agrees_at(at, at_place(lookup, Place::Arg(i))) by {}
            }
            let e = expand_vars_at(self.engine_args[i].as_str(), &at);
            match e {
                Ok(v) => {
                    self.engine_args.set(i, v);
                },
                Err(err) => {
                    proof {
                        assert forall|lookup: spec_fn(Place, int, Seq<char>) -> Option<Seq<char>>| #[trigger] getter_agrees_placed(getter, lookup)
                            implies !old_self.expansions_succeed(lookup)
                                && self.failed_at_arg(old_self, lookup, i as int, expand_error_name(err)) by {
                            assert(expand_at(old_self.engine_args@[i as int]@, at_place(lookup, Place::Arg(i))) is Err);
                        }
                    }
                    return Err(err);
                },
            }
            i = i + 1;
        }

        // expand skel path
        let skel = match &self.skel {
            Some(skel) => {
                let g = &getter;
            let at = |p: usize, x: &str| -> (a: Option<String>)
                    requires
                        forall|q: Place, j: usize, y: &str| #[trigger] g.requires((q, j, y)),
                    ensures
                        forall|lookup: spec_fn(Place, int, Seq<char>) -> Option<Seq<char>>| #[trigger] getter_agrees_placed(*g, lookup) ==> opt_view(a) == lookup(Place::Skel, p as int, x@),
                    { g(Place::Skel, p, x) };
                proof {
                    assert forall|lookup: spec_fn(Place, int, Seq<char>) -> Option<Seq<char>>| #[trigger] getter_agrees_placed(getter, lookup)
                        implies getter_agrees_at(at, at_place(lookup, Place::Skel)) by {}
                }
                match expand_vars_at(skel.as_str(), &at) {
                    Ok(v) => Some(v),
                    Err(err) => {
                        proof {
                            assert forall|lookup: spec_fn(Place, int, Seq<char>) -> Option<Seq<char>>| #[trigger] getter_agrees_placed(getter, lookup)
                                implies !old_self.expansions_succeed(lookup)
                                    && self.failed_at_skel(old_self, lookup, expand_error_name(err)) by {
                            }
                        }
                        return Err(err);
                    },
                }
            },
            None => None,
        };
        self.skel = skel;
        let ghost skel_after = self.skel;
        let ghost args_after = self.engine_args;

        // expand only the values in env
        let mut i: usize = 0;
        while i < self.env.len()
            invariant
                old_self == *old(self),
                i <= self.env.len(),
                self.env.len() == old_self.env.len(),
                self.skel == skel_after,
                self.same_unexpanded(old_self),
                self.engine_args == args_after,
                forall|lookup: spec_fn(Place, int, Seq<char>) -> Option<Seq<char>>| #[trigger] getter_agrees_placed(getter, lookup) ==>
                    self.engine_args_and_skel_expanded(old_self, lookup),
                forall|q: Place, p: usize, x: &str| #[trigger] getter.requires((q, p, x)),
                forall|k: int| 0 <= k < i ==> (#[trigger] self.env@[k]).0 == old_self.env@[k].0,
                forall|k: int| i <= k < self.env.len() ==> self.env@[k] == old_self.env@[k],
                forall|lookup: spec_fn(Place, int, Seq<char>) -> Option<Seq<char>>| #[trigger] getter_agrees_placed(getter, lookup) ==>
                    forall|k: int| 0 <= k < i ==> expand_at(old_self.env@[k].1@, at_place(lookup, Place::Env(k as usize))) == Ok::<Seq<char>, Seq<char>>((#[trigger] self.env@[k]).1@),
            decreases self.env.len() - i,
        {
            let name = self.env[i].0.clone();
            let g = &getter;
            let at = |p: usize, x: &str| -> (a: Option<String>)
                requires
                    forall|q: Place, j: usize, y: &str| #[trigger] g.requires((q, j, y)),
                ensures
                    forall|lookup: spec_fn(Place, int, Seq<char>) -> Option<Seq<char>>| #[trigger] getter_agrees_placed(*g, lookup) ==> opt_view(a) == lookup(Place::Env(i), p as int, x@),
                { g(Place::Env(i), p, x) };
            proof {
                assert forall|lookup: spec_fn(Place, int, Seq<char>) -> Option<Seq<char>>| #[trigger] getter_agrees_placed(getter, lookup)
                    implies getter_agrees_at(at, at_place(lookup, Place::Env(i))) by {}
            }
            match expand_vars_at(self.env[i].1.as_str(), &at) {
                Ok(v) => {
                    self.env.set(i, (name, v));
                },
                Err(err) => {
                    proof {
                        assert forall|lookup: spec_fn(Place, int, Seq<char>) -> Option<Seq<char>>| #[trigger] getter_agrees_placed(getter, lookup)
                            implies !old_self.expansions_succeed(lookup)
                                && self.failed_at_env(old_self, lookup, i as int, expand_error_name(err)) by {
                            assert(expand_at(old_self.env@[i as int].1@, at_place(lookup, Place::Env(i))) is Err);
                        }
                    }
                    return Err(err);
                },
            }
            i = i + 1;
        }
        proof {
            assert forall|lookup: spec_fn(Place, int, Seq<char>) -> Option<Seq<char>>| #[trigger] getter_agrees_placed(getter, lookup)
                implies old_self.expansions_succeed(lookup) && self.expanded_from(old_self, lookup) by {
                assert(self.engine_args_and_skel_expanded(old_self, lookup));
                assert forall|k: int| 0 <= k < old_self.engine_args@.len()
                    implies (#[trigger] expand_at(old_self.engine_args@[k]@, at_place(lookup, Place::Arg(k as usize)))) is Ok by {
                    assert(expand_at(old_self.engine_args@[k]@, at_place(lookup, Place::Arg(k as usize))) == Ok::<Seq<char>, Seq<char>>(self.engine_args@[k]@));
                }
                assert forall|k: int| 0 <= k < old_self.env@.len()
                    implies (#[trigger] expand_at(old_self.env@[k].1@, at_place(lookup, Place::Env(k as usize)))) is Ok by {
                    assert(expand_at(old_self.env@[k].1@, at_place(lookup, Place::Env(k as usize))) == Ok::<Seq<char>, Seq<char>>(self.env@[k].1@));
                }
            }
        }
        Ok(())
    }

    /// The expansion of `old` failed first at engine argument `k` on
    /// variable `name`: the arguments before it are expanded into `self`, the
    /// others untouched.
    pub open spec fn failed_at_arg(&self, old: ConfigV1, lookup: spec_fn(Place, int, Seq<char>) -> Option<Seq<char>>, k: int, name: Seq<char>) -> bool {
        &&& 0 <= k < old.engine_args@.len()
        &&& expand_at(old.engine_args@[k]@, at_place(lookup, Place::Arg(k as usize))) == Err::<Seq<char>, Seq<char>>(name)
        &&& self.engine_args@.len() == old.engine_args@.len()
        &&& forall|j: int| 0 <= j < k ==> expand_at(old.engine_args@[j]@, at_place(lookup, Place::Arg(j as usize))) == Ok::<Seq<char>, Seq<char>>(#[trigger] self.engine_args@[j]@)
        &&& forall|j: int| k <= j < old.engine_args@.len() ==> #[trigger] self.engine_args@[j] == old.engine_args@[j]
        &&& self.skel == old.skel
        &&& self.env == old.env
        &&& self.same_unexpanded(old)
    }

    /// The expansion of `old` failed first at the skel path on variable
    /// `name`: the engine arguments are expanded into `self`, the rest
    /// untouched.
    pub open spec fn failed_at_skel(&self, old: ConfigV1, lookup: spec_fn(Place, int, Seq<char>) -> Option<Seq<char>>, name: Seq<char>) -> bool {
        &&& old.skel matches Some(s) && expand_at(s@, at_place(lookup, Place::Skel)) == Err::<Seq<char>, Seq<char>>(name)
        &&& self.engine_args@.len() == old.engine_args@.len()
        &&& forall|j: int| 0 <= j < old.engine_args@.len() ==> expand_at(old.engine_args@[j]@, at_place(lookup, Place::Arg(j as usize))) == Ok::<Seq<char>, Seq<char>>(#[trigger] self.engine_args@[j]@)
        &&& self.skel == old.skel
        &&& self.env == old.env
        &&& self.same_unexpanded(old)
    }

    /// The expansion of `old` failed first at the value of environment
    /// variable `k` on variable `name`: the engine arguments, the skel path
    /// and the values before it are expanded into `self`, the others
    /// untouched.
    pub open spec fn failed_at_env(&self, old: ConfigV1, lookup: spec_fn(Place, int, Seq<char>) -> Option<Seq<char>>, k: int, name: Seq<char>) -> bool {
        &&& self.engine_args_and_skel_expanded(old, lookup)
        &&& 0 <= k < old.env@.len()
        &&& expand_at(old.env@[k].1@, at_place(lookup, Place::Env(k as usize))) == Err::<Seq<char>, Seq<char>>(name)
        &&& self.env@.len() == old.env@.len()
        &&& forall|j: int| 0 <= j < k ==> (#[trigger] self.env@[j]).0 == old.env@[j].0
            && expand_at(old.env@[j].1@, at_place(lookup, Place::Env(j as usize))) == Ok::<Seq<char>, Seq<char>>(self.env@[j].1@)
        &&& forall|j: int| k <= j < old.env@.len() ==> #[trigger] self.env@[j] == old.env@[j]
        &&& self.same_unexpanded(old)
    }

    /// The engine arguments and the skel path of `self` are those of `old`
    /// expanded.
    pub open spec fn engine_args_and_skel_expanded(&self, old: ConfigV1, lookup: spec_fn(Place, int, Seq<char>) -> Option<Seq<char>>) -> bool {
        &&& self.engine_args@.len() == old.engine_args@.len()
        &&& forall|k: int| 0 <= k < old.engine_args@.len() ==> expand_at(old.engine_args@[k]@, at_place(lookup, Place::Arg(k as usize))) == Ok::<Seq<char>, Seq<char>>(#[trigger] self.engine_args@[k]@)
        &&& match old.skel {
            Some(s) => self.skel matches Some(t) && expand_at(s@, at_place(lookup, Place::Skel)) == Ok::<Seq<char>, Seq<char>>(t@),
            None => self.skel is None,
        }
    }

    /// Each expansion of the properties that hold variables succeeds.
    pub open spec fn expansions_succeed(&self, lookup: spec_fn(Place, int, Seq<char>) -> Option<Seq<char>>) -> bool {
        &&& forall|k: int| 0 <= k < self.engine_args@.len() ==> (#[trigger] expand_at(self.engine_args@[k]@, at_place(lookup, Place::Arg(k as usize)))) is Ok
        &&& (self.skel matches Some(s) ==> expand_at(s@, at_place(lookup, Place::Skel)) is Ok)
        &&& forall|k: int| 0 <= k < self.env@.len() ==> (#[trigger] expand_at(self.env@[k].1@, at_place(lookup, Place::Env(k as usize)))) is Ok
    }

    /// `self` is `old` with its variables expanded.
    pub open spec fn expanded_from(&self, old: ConfigV1, lookup: spec_fn(Place, int, Seq<char>) -> Option<Seq<char>>) -> bool {
        &&& self.engine_args@.len() == old.engine_args@.len()
        &&& forall|k: int| 0 <= k < old.engine_args@.len() ==> expand_at(old.engine_args@[k]@, at_place(lookup, Place::Arg(k as usize))) == Ok::<Seq<char>, Seq<char>>(#[trigger] self.engine_args@[k]@)
        &&& match old.skel {
            Some(s) => self.skel matches Some(t) && expand_at(s@, at_place(lookup, Place::Skel)) == Ok::<Seq<char>, Seq<char>>(t@),
            None => self.skel is None,
        }
        &&& self.env@.len() == old.env@.len()
        &&& forall|k: int| 0 <= k < old.env@.len() ==> (#[trigger] self.env@[k]).0 == old.env@[k].0
            && expand_at(old.env@[k].1@, at_place(lookup, Place::Env(k as usize))) == Ok::<Seq<char>, Seq<char>>(self.env@[k].1@)
        &&& self.same_unexpanded(old)
    }

    /// `self` and `old` agree on every property that holds no variables.
    pub open spec fn same_unexpanded(&self, old: ConfigV1) -> bool {
        &&& self.path == old.path
        &&& self.name == old.name
        &&& self.source == old.source
        &&& self.shell == old.shell
        &&& self.gvisor == old.gvisor
        &&& self.network == old.network
        &&& self.pipewire == old.pipewire
        &&& self.pulseaudio == old.pulseaudio
        &&& self.wayland == old.wayland
        &&& self.gpus == old.gpus
        &&& self.ssh_agent == old.ssh_agent
        &&& self.session_bus == old.session_bus
        &&& self.persist == old.persist
        &&& self.persist_user == old.persist_user
        &&& self.on_init_pre == old.on_init_pre
        &&& self.on_init_post == old.on_init_post
        &&& self.host_pre_init == old.host_pre_init
        &&& self.ports == old.ports
        &&& self.capabilities == old.capabilities
    }
}

/// A configuration file, by the version of its schema.
#[derive(Debug, Clone, PartialEq)]
pub enum ConfigFile {
    /// Version 1 of the schema.
    V1(ConfigV1),
}

impl ConfigFile {
    /// The file of a configuration in the latest version of the schema.
    pub fn latest(config: ConfigV1) -> (r: Self)
        ensures
            r == ConfigFile::V1(config),
    {
        ConfigFile::V1(config)
    }

    /// The configuration the file holds.
    pub fn into_config(self) -> (r: ConfigV1)
        ensures
            match self {
                ConfigFile::V1(c) => r == c,
            },
    {
        match self {
            ConfigFile::V1(c) => c,
        }
    }
}

} // verus!
