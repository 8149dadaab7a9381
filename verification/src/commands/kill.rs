//! Stopping a running container.
use vstd::prelude::*;
use crate::cli::CmdKillArgs;
use crate::commands::CommandError;
use crate::consts::CONTAINER_LABEL_APP;
use crate::context::Context;
use crate::engine::{exists_answer, label_lookup, ContainerInfo, Engine};
use crate::text::{copy_str, debug_quoted, dec_text, push_str, push_string, push_owned, str_debug, u64_to_string};

verus! {

/// Where stopping a container stands.
#[derive(Debug, Clone)]
pub enum KillState {
    /// Nothing asked yet.
    Start,
    /// Waiting for the containers of the current directory.
    AwaitCwd,
    /// Waiting for the existence check of this container.
    AwaitExists(String),
    /// Waiting for the description of this container.
    AwaitInspect(String),
    /// Waiting for the user to confirm stopping this container.
    AwaitAnswer(String),
    /// Nothing more to do.
    Done,
}

/// The answer to the last action.
#[derive(Debug, Clone)]
pub enum KillInput {
    /// Start.
    Begin,
    /// Names of the containers of the current directory.
    CwdContainers(Vec<String>),
    /// Exit code of the existence check.
    ExistsCode(u8),
    /// Descriptions of the inspected containers.
    Inspected(Vec<ContainerInfo>),
    /// Whether the user confirmed.
    Answer(bool),
}

/// What to do next.
#[derive(Debug, Clone)]
pub enum KillAction {
    /// List the containers of the current directory (engine arguments).
    ListCwd(Vec<String>),
    /// Check that the container exists (engine arguments).
    CheckExists(Vec<String>),
    /// Describe the container (engine arguments).
    Inspect(Vec<String>),
    /// Ask the user this yes/no question.
    Prompt(String),
    /// Stop the container (engine arguments).
    Stop(Vec<String>),
    /// Only show the command that would stop the container (engine arguments).
    ShowStop(Vec<String>),
    /// Stopping failed.
    Fail(CommandError),
}

/// The question asked before stopping `name`.
pub open spec fn kill_question(name: Seq<char>) -> Seq<char> {
    "Are you sure you want to kill container "@ + str_debug(name) + " ?"@
}

/// Engine arguments that stop `name`, giving it `timeout` seconds.
pub open spec fn stop_args(timeout: u32, name: Seq<char>) -> Seq<Seq<char>> {
    seq!["container"@, "stop"@, "--time"@, dec_text(timeout as nat), name]
}

/// The last step: stop the container (or show how, in a dry run).
pub open spec fn stop_step(ctx: Context, args: CmdKillArgs, name: Seq<char>, r: (KillState, KillAction)) -> bool {
    &&& r.0 is Done
    &&& if ctx.dry_run {
        r.1 matches KillAction::ShowStop(a) && a.deep_view() == stop_args(args.timeout, name)
    } else {
        r.1 matches KillAction::Stop(a) && a.deep_view() == stop_args(args.timeout, name)
    }
}

/// Ask for confirmation unless `--yes` was given, else stop.
pub open spec fn confirm_step(ctx: Context, args: CmdKillArgs, name: Seq<char>, r: (KillState, KillAction)) -> bool {
    if !args.yes {
        &&& r.0 matches KillState::AwaitAnswer(n) && n@ == name
        &&& r.1 matches KillAction::Prompt(q) && q@ == kill_question(name)
    } else {
        stop_step(ctx, args, name, r)
    }
}

/// Stopping failed with `e`.
pub open spec fn kill_fails(r: (KillState, KillAction), e: CommandError) -> bool {
    r.0 is Done && r.1 == KillAction::Fail(e)
}

fn stop_next(ctx: &Context, args: &CmdKillArgs, name: String) -> (r: (KillState, KillAction))
    ensures
        stop_step(*ctx, *args, name@, r),
{
    let mut a: Vec<String> = Vec::new();
    push_string(&mut a, "container");
    push_string(&mut a, "stop");
    push_string(&mut a, "--time");
    push_owned(&mut a, u64_to_string(args.timeout as u64));
    push_owned(&mut a, name);
    assert(a.deep_view() =~= stop_args(args.timeout, name@));
    if ctx.dry_run {
        (KillState::Done, KillAction::ShowStop(a))
    } else {
        (KillState::Done, KillAction::Stop(a))
    }
}

fn confirm_next(ctx: &Context, args: &CmdKillArgs, name: String) -> (r: (KillState, KillAction))
    ensures
        confirm_step(*ctx, *args, name@, r),
{
    if !args.yes {
        let mut q = copy_str("Are you sure you want to kill container ");
        let dq = debug_quoted(name.as_str());
        push_str(&mut q, dq.as_str());
        push_str(&mut q, " ?");
        (KillState::AwaitAnswer(name), KillAction::Prompt(q))
    } else {
        stop_next(ctx, args, name)
    }
}

/// One step of stopping a container (see `kill_container`): from `state`
/// and the answer `input` to the last action, the next state and action `r`.
pub open spec fn kill_step(ctx: Context, args: CmdKillArgs, state: KillState, input: KillInput, r: (KillState, KillAction)) -> bool {
    match (state, input) {
        (KillState::Start, KillInput::Begin) => if args.name@.len() == 0 {
            &&& r.0 is AwaitCwd
            &&& r.1 matches KillAction::ListCwd(a) && a.deep_view() == ctx.engine.spec_list_args(ctx.cwd_labels())
        } else if !ctx.dry_run {
            &&& r.0 matches KillState::AwaitExists(n) && n@ == args.name@
            &&& r.1 matches KillAction::CheckExists(a) && a.deep_view() == ctx.engine.spec_container_exists_args(args.name@)
        } else {
            confirm_step(ctx, args, args.name@, r)
        },
        (KillState::AwaitCwd, KillInput::CwdContainers(l)) => if l.len() == 0 {
            kill_fails(r, CommandError::NoCwdContainer)
        } else {
            confirm_step(ctx, args, l[0]@, r)
        },
        (KillState::AwaitExists(n), KillInput::ExistsCode(c)) => match exists_answer(c) {
            Some(true) => {
                &&& r.0 matches KillState::AwaitInspect(m) && m@ == n@
                &&& r.1 matches KillAction::Inspect(a) && a.deep_view() == ctx.engine.spec_inspect_args(seq![n@])
            },
            Some(false) => r.0 is Done && (r.1 matches KillAction::Fail(CommandError::ContainerMissing(m)) && m@ == n@),
            None => r.0 is Done && (r.1 matches KillAction::Fail(CommandError::Engine(_))),
        },
        (KillState::AwaitInspect(n), KillInput::Inspected(v)) => if label_lookup(v[0].labels@, CONTAINER_LABEL_APP@) is None {
            r.0 is Done && (r.1 matches KillAction::Fail(CommandError::NotOwned(m)) && m@ == n@)
        } else {
            confirm_step(ctx, args, n@, r)
        },
        (KillState::AwaitAnswer(n), KillInput::Answer(yes)) => if !yes {
            kill_fails(r, CommandError::Cancelled)
        } else {
            stop_step(ctx, args, n@, r)
        },
        _ => kill_fails(r, CommandError::Unexpected),
    }
}

/// One step of stopping a container: the container named on the command
/// line or else the first one of the current directory; a named container
/// must exist and be owned by the application (not checked in a dry run);
/// the user confirms unless `--yes` was given.
pub fn kill_container(ctx: &Context, cli_args: &CmdKillArgs, state: KillState, input: KillInput) -> (r: (KillState, KillAction))
    requires
        state is AwaitInspect ==> (input matches KillInput::Inspected(v) ==> v.len() > 0),
        state matches KillState::AwaitExists(n) ==> n@.len() > 0,
    ensures
        r.0 matches KillState::AwaitExists(n) ==> n@.len() > 0,
        kill_step(*ctx, *cli_args, state, input, r),
{
    match (state, input) {
        (KillState::Start, KillInput::Begin) => {
            // try to find container in current directory
            if cli_args.name.as_str().is_empty() {
                (KillState::AwaitCwd, KillAction::ListCwd(ctx.cwd_containers_args()))
            } else if !ctx.dry_run {
                let n = cli_args.name.clone();
                let a = ctx.engine.container_exists_args(n.as_str());
                (KillState::AwaitExists(n), KillAction::CheckExists(a))
            } else {
                confirm_next(ctx, cli_args, cli_args.name.clone())
            }
        },
        (KillState::AwaitCwd, KillInput::CwdContainers(l)) => {
            if l.len() == 0 {
                (KillState::Done, KillAction::Fail(CommandError::NoCwdContainer))
            } else {
                confirm_next(ctx, cli_args, l[0].clone())
            }
        },
        (KillState::AwaitExists(n), KillInput::ExistsCode(c)) => {
            match ctx.engine.container_exists(n.as_str(), c) {
                Ok(true) => {
                    let mut names: Vec<String> = Vec::new();
                    names.push(n.clone());
                    assert(names.deep_view() =~= seq![n@]);
                    let a = ctx.engine.inspect_containers_args(&names);
                    (KillState::AwaitInspect(n), KillAction::Inspect(a))
                },
                Ok(false) => (KillState::Done, KillAction::Fail(CommandError::ContainerMissing(n))),
                Err(e) => (KillState::Done, KillAction::Fail(CommandError::Engine(e))),
            }
        },
        (KillState::AwaitInspect(n), KillInput::Inspected(v)) => {
            // check if container is owned
            if !v[0].has_label(CONTAINER_LABEL_APP) {
                (KillState::Done, KillAction::Fail(CommandError::NotOwned(n)))
            } else {
                confirm_next(ctx, cli_args, n)
            }
        },
        (KillState::AwaitAnswer(n), KillInput::Answer(yes)) => {
            if !yes {
                (KillState::Done, KillAction::Fail(CommandError::Cancelled))
            } else {
                stop_next(ctx, cli_args, n)
            }
        },
        _ => (KillState::Done, KillAction::Fail(CommandError::Unexpected)),
    }
}

/// Without `--yes`, a container is only stopped (or its stop shown) once the
/// user answered yes to the question.
pub proof fn law_kill_confirmed(ctx: Context, args: CmdKillArgs, state: KillState, input: KillInput, r: (KillState, KillAction))
    requires
        kill_step(ctx, args, state, input, r),
        !args.yes,
        r.1 is Stop || r.1 is ShowStop,
    ensures
        state is AwaitAnswer,
        input == KillInput::Answer(true),
{
}

} // verus!
