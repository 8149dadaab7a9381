//! The configuration of a new container, made ready: its name, its
//! variables expanded, the command line merged in.
use vstd::prelude::*;
use crate::cli::CmdStartArgs;
use crate::commands::start::StartError;
use crate::commands::start::naming::{adjective_list, generate_name, name_text};
use crate::config::{getter_agrees_placed, ConfigV1, Place};
use crate::consts::ENV_CONTAINER_SUFFIX;
use crate::context::Context;
use crate::host::{env_get, random_u32};
use crate::paths::{file_name, last_component};
use crate::text::{chars_of, copy_str, dec_text, str_eq, string_of_range, u64_to_string};
use crate::vars::{getter_agrees, opt_view};

verus! {

/// The parent directory of a file path: what comes before the last
/// component, without its trailing `/` (but `/` itself for a file at the
/// root, and empty for a bare file name).
pub open spec fn parent_dir(p: Seq<char>) -> Seq<char> {
    let prefix = p.subrange(0, p.len() - last_component(p).len());
    if prefix.len() <= 1 {
        prefix
    } else {
        prefix.drop_last()
    }
}

proof fn lemma_last_component_len(p: Seq<char>)
    ensures
        last_component(p).len() <= p.len(),
    decreases p.len(),
{
    if p.len() > 0 && p.last() != '/' {
        lemma_last_component_len(p.drop_last());
    }
}

/// The parent directory of a file path (see `parent_dir`).
pub fn parent_of(p: &str) -> (r: String)
    ensures
        r@ == parent_dir(p@),
{
    let name = file_name(p);
    let cs = chars_of(p);
    let nl = chars_of(name.as_str()).len();
    proof {
        lemma_last_component_len(p@);
    }
    let plen = cs.len() - nl;
    if plen <= 1 {
        string_of_range(&cs, 0, plen)
    } else {
        let r = string_of_range(&cs, 0, plen - 1);
        assert(r@ =~= cs@.subrange(0, plen as int).drop_last());
        r
    }
}

/// The directory of the configuration file, when there is one.
pub open spec fn config_dir_of(cfg: ConfigV1) -> Option<Seq<char>> {
    match cfg.path {
        Some(p) => Some(parent_dir(p@)),
        None => None,
    }
}

/// The values a configuration can refer to: the user, the working
/// directory, the home, the name of the container, the random number `rnd`
/// (the one drawn for the reference being expanded),
/// the directory and the name of the configuration; any other name is looked
/// up in the environment `envs`.
pub open spec fn context_lookup(ctx: Context, name: Seq<char>, cfg: ConfigV1, rnd: u32, envs: spec_fn(Seq<char>) -> Option<Seq<char>>) -> spec_fn(Seq<char>) -> Option<Seq<char>> {
    |v: Seq<char>|
        if v == "USER"@ {
            Some(ctx.user@)
        } else if v == "PWD"@ || v == "CWD"@ {
            Some(ctx.cwd@)
        } else if v == "HOME"@ {
            Some(ctx.user_home@)
        } else if v == "CONTAINER"@ || v == "CONTAINER_NAME"@ {
            Some(name)
        } else if v == "RAND"@ || v == "RANDOM"@ {
            Some(dec_text(rnd as nat))
        } else if v == "CONFIG_DIR"@ {
            config_dir_of(cfg)
        } else if v == "CONFIG_NAME"@ {
            opt_view(cfg.name)
        } else {
            envs(v)
        }
}

/// The value of the variable `v` for a configuration (see `context_lookup`).
pub fn context_value<E: Fn(&str) -> Option<String>>(ctx: &Context, v: &str, name: &str, cfg: &ConfigV1, rnd: u32, env: &E) -> (r: Option<String>)
    requires
        forall|x: &str| #[trigger] env.requires((x,)),
    ensures
        forall|envs: spec_fn(Seq<char>) -> Option<Seq<char>>| getter_agrees(*env, envs) ==>
            opt_view(r) == context_lookup(*ctx, name@, *cfg, rnd, envs)(v@),
{
    if str_eq(v, "USER") {
        Some(copy_str(ctx.user.as_str()))
    } else if str_eq(v, "PWD") || str_eq(v, "CWD") {
        Some(copy_str(ctx.cwd.as_str()))
    } else if str_eq(v, "HOME") {
        Some(copy_str(ctx.user_home.as_str()))
    } else if str_eq(v, "CONTAINER") || str_eq(v, "CONTAINER_NAME") {
        Some(copy_str(name))
    } else if str_eq(v, "RAND") || str_eq(v, "RANDOM") {
        Some(u64_to_string(rnd as u64))
    } else if str_eq(v, "CONFIG_DIR") {
        match &cfg.path {
            Some(p) => Some(parent_of(p.as_str())),
            None => None,
        }
    } else if str_eq(v, "CONFIG_NAME") {
        match &cfg.name {
            Some(n) => Some(copy_str(n.as_str())),
            None => None,
        }
    } else {
        // fall back to the environment
        env_get(env, v)
    }
}

/// Numbers drawn for the references of a configuration, so that each
/// reference to `RAND` or `RANDOM` gets one of its own: for each text that
/// holds variables (the engine arguments, the skel path, the values of the
/// environment), one number per position, drawn at each `$`.
#[derive(Debug)]
pub struct Numbers {
    /// For each engine argument.
    pub args: Vec<Vec<u32>>,
    /// For the skel path.
    pub skel: Vec<u32>,
    /// For each value of the environment.
    pub env: Vec<Vec<u32>>,
}

/// The number for the reference at position `i` of the text at place `q`
/// (0 where none was drawn).
pub open spec fn number_at(n: Numbers, q: Place, i: int) -> u32 {
    let v = match q {
        Place::Arg(k) => if k < n.args@.len() { n.args@[k as int]@ } else { Seq::empty() },
        Place::Skel => n.skel@,
        Place::Env(k) => if k < n.env@.len() { n.env@[k as int]@ } else { Seq::empty() },
    };
    if 0 <= i < v.len() {
        v[i]
    } else {
        0
    }
}

fn number_in(v: &Vec<u32>, i: usize) -> (r: u32)
    ensures
        r == (if i < v@.len() { v@[i as int] } else { 0u32 }),
{
    if i < v.len() {
        v[i]
    } else {
        0
    }
}

/// The number for the reference at position `i` of the text at place `q`.
pub fn number_of(n: &Numbers, q: Place, i: usize) -> (r: u32)
    ensures
        r == number_at(*n, q, i as int),
{
    match q {
        Place::Arg(k) => if k < n.args.len() {
            number_in(&n.args[k], i)
        } else {
            0
        },
        Place::Skel => number_in(&n.skel, i),
        Place::Env(k) => if k < n.env.len() {
            number_in(&n.env[k], i)
        } else {
            0
        },
    }
}

/// Draws a number for each `$` of `s` (0 at the other positions).
fn draw_for(s: &str) -> (r: Vec<u32>)
    ensures
        r@.len() == s@.len(),
{
    let cs = chars_of(s);
    let mut r: Vec<u32> = Vec::new();
    let mut i: usize = 0;
    while i < cs.len()
        invariant
            i <= cs.len(),
            r@.len() == i,
        decreases cs.len() - i,
    {
        if cs[i] == '$' {
            r.push(random_u32());
        } else {
            r.push(0);
        }
        i = i + 1;
    }
    r
}

/// Draws the numbers for the references of `cfg` (see `Numbers`).
pub fn draw_numbers(cfg: &ConfigV1) -> (r: Numbers)
    ensures
        r.args@.len() == cfg.engine_args@.len(),
        r.env@.len() == cfg.env@.len(),
{
    let mut args: Vec<Vec<u32>> = Vec::new();
    let mut i: usize = 0;
    while i < cfg.engine_args.len()
        invariant
            i <= cfg.engine_args.len(),
            args@.len() == i,
        decreases cfg.engine_args.len() - i,
    {
        args.push(draw_for(cfg.engine_args[i].as_str()));
        i = i + 1;
    }
    let skel = match &cfg.skel {
        Some(s) => draw_for(s.as_str()),
        None => Vec::new(),
    };
    let mut env: Vec<Vec<u32>> = Vec::new();
    let mut j: usize = 0;
    while j < cfg.env.len()
        invariant
            j <= cfg.env.len(),
            env@.len() == j,
        decreases cfg.env.len() - j,
    {
        env.push(draw_for(cfg.env[j].1.as_str()));
        j = j + 1;
    }
    Numbers { args, skel, env }
}

/// The values of the references of a configuration at the start: those of
/// `context_lookup`, where the reference at position `i` of the text at
/// place `q` takes the number drawn for it.
pub open spec fn start_lookup(ctx: Context, name: Seq<char>, cfg: ConfigV1, nums: Numbers, envs: spec_fn(Seq<char>) -> Option<Seq<char>>) -> spec_fn(Place, int, Seq<char>) -> Option<Seq<char>> {
    |q: Place, i: int, v: Seq<char>| context_lookup(ctx, name, cfg, number_at(nums, q, i), envs)(v)
}

/// `name` is a fit name for the container: the one given on the command
/// line, else the one of the configuration, else a generated one.
pub open spec fn start_name_ok(cli: CmdStartArgs, cfg: ConfigV1, name: Seq<char>, envs: spec_fn(Seq<char>) -> Option<Seq<char>>) -> bool {
    match cli.name {
        Some(n) => name == n@,
        None => match cfg.name {
            Some(n) => name == n@,
            None => exists|k: int| 0 <= k < adjective_list().len() && name == name_text(#[trigger] adjective_list()[k], envs(ENV_CONTAINER_SUFFIX@)),
        },
    }
}

/// The name of the new container (see `start_name_ok`).
pub fn start_name<E: Fn(&str) -> Option<String>>(cli_args: &CmdStartArgs, cfg: &ConfigV1, env: &E) -> (r: String)
    requires
        forall|x: &str| #[trigger] env.requires((x,)),
    ensures
        (cli_args.name matches Some(n) ==> n@.len() > 0) && (cfg.name matches Some(n) ==> n@.len() > 0) ==> r@.len() > 0,
        forall|envs: spec_fn(Seq<char>) -> Option<Seq<char>>| getter_agrees(*env, envs) ==> start_name_ok(*cli_args, *cfg, r@, envs),
{
    match &cli_args.name {
        Some(n) => copy_str(n.as_str()),
        None => match &cfg.name {
            Some(n) => copy_str(n.as_str()),
            // use a generated name when none is set
            None => generate_name(env),
        },
    }
}

/// A container ready to be started: its configuration and its name.
#[derive(Debug)]
pub struct Prepared {
    /// The configuration, expanded and merged with the command line.
    pub config: ConfigV1,
    /// The name of the container.
    pub name: String,
}

/// `p` is the configuration `cfg` made ready for a start with the command
/// line `cli`, where variables take the values of `lookup`; or the error of
/// the expansion.
pub open spec fn prepared_from(r: Result<Prepared, StartError>, cfg: ConfigV1, cli: CmdStartArgs, name: Seq<char>, lookup: spec_fn(Place, int, Seq<char>) -> Option<Seq<char>>) -> bool {
    if !cfg.expansions_succeed(lookup) {
        r matches Err(e) && e@ is Expand
    } else {
        r matches Ok(p) && p.name@ == name && exists|x: ConfigV1| #[trigger] x.expanded_from(cfg, lookup) && p.config.merged(x, cli)
    }
}

/// Makes the configuration `cfg` ready for the start of the container
/// `name`: expands its variables (before merging) with the values of
/// `start_lookup` for the numbers `nums`, then merges the command line into
/// it.
pub fn prepare_config<E: Fn(&str) -> Option<String>>(ctx: &Context, cli_args: &CmdStartArgs, cfg: ConfigV1, name: String, nums: &Numbers, env: &E) -> (r: Result<Prepared, StartError>)
    requires
        forall|x: &str| #[trigger] env.requires((x,)),
    ensures
        r matches Ok(p) ==> p.name@ == name@,
        forall|envs: spec_fn(Seq<char>) -> Option<Seq<char>>| getter_agrees(*env, envs) ==>
            prepared_from(r, cfg, *cli_args, name@, start_lookup(*ctx, name@, cfg, *nums, envs)),
{
    let ghost original = cfg;
    let mut config = cfg;
    let snapshot = ConfigV1 {
        path: match &config.path { Some(p) => Some(copy_str(p.as_str())), None => None },
        name: match &config.name { Some(n) => Some(copy_str(n.as_str())), None => None },
        ..ConfigV1::default()
    };
    let snap = &snapshot;
    let getter = |q: Place, i: usize, v: &str| -> (out: Option<String>)
        requires
            forall|x: &str| #[trigger] env.requires((x,)),
        ensures
            forall|envs: spec_fn(Seq<char>) -> Option<Seq<char>>| getter_agrees(*env, envs) ==>
                opt_view(out) == start_lookup(*ctx, name@, *snap, *nums, envs)(q, i as int, v@),
    {
        // each reference gets the number drawn for its place and position
        context_value(ctx, v, name.as_str(), snap, number_of(nums, q, i), env)
    };
    proof {
        assert forall|envs: spec_fn(Seq<char>) -> Option<Seq<char>>| getter_agrees(*env, envs) implies
            start_lookup(*ctx, name@, snapshot, *nums, envs) =~= start_lookup(*ctx, name@, original, *nums, envs) by {
            assert(opt_view(snapshot.name) == opt_view(original.name));
            assert(config_dir_of(snapshot) == config_dir_of(original));
            assert forall|q: Place, i: int, v: Seq<char>| #[trigger] start_lookup(*ctx, name@, snapshot, *nums, envs)(q, i, v)
                == start_lookup(*ctx, name@, original, *nums, envs)(q, i, v) by {
                assert(context_lookup(*ctx, name@, snapshot, number_at(*nums, q, i), envs)
                    =~= context_lookup(*ctx, name@, original, number_at(*nums, q, i), envs));
            }
        }
    }
    // expand vars before merging
    let e = config.expand_vars_at(getter);
    match e {
        Err(err) => {
            proof {
                assert forall|envs: spec_fn(Seq<char>) -> Option<Seq<char>>| getter_agrees(*env, envs) implies
                    !original.expansions_succeed(start_lookup(*ctx, name@, original, *nums, envs)) by {
                    assert(getter_agrees_placed(getter, start_lookup(*ctx, name@, snapshot, *nums, envs)));
                }
            }
            Err(StartError::Expand(err))
        },
        Ok(()) => {
            let ghost expanded = config;
            config.merge_cli(cli_args);
            proof {
                assert forall|envs: spec_fn(Seq<char>) -> Option<Seq<char>>| getter_agrees(*env, envs) implies
                    original.expansions_succeed(start_lookup(*ctx, name@, original, *nums, envs))
                    && expanded.expanded_from(original, start_lookup(*ctx, name@, original, *nums, envs)) by {
                    assert(getter_agrees_placed(getter, start_lookup(*ctx, name@, snapshot, *nums, envs)));
                }
            }
            Ok(Prepared { config, name })
        },
    }
}

} // verus!
