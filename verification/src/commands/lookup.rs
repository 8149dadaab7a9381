//! Finding the container a command works on.
use vstd::prelude::*;
use crate::commands::CommandError;
use crate::context::Context;
use crate::engine::{exists_answer, ContainerInfo, Engine};
use crate::text::copy_str;

verus! {

/// Where the search for the container stands.
#[derive(Debug, Clone)]
pub enum LookupState {
    /// Nothing asked yet.
    Start,
    /// Waiting for the containers of the current directory.
    AwaitCwd,
    /// Waiting for the existence check of this container.
    AwaitExists(String),
    /// Waiting for the description of this container.
    AwaitInspect(String),
    /// The search is over.
    Done,
}

/// The answer of the engine to the last action.
#[derive(Debug, Clone)]
pub enum LookupInput {
    /// Start the search.
    Begin,
    /// Names of the containers of the current directory.
    CwdContainers(Vec<String>),
    /// Exit code of the existence check.
    ExistsCode(u8),
    /// Descriptions of the inspected containers.
    Inspected(Vec<ContainerInfo>),
}

/// What to do next.
#[derive(Debug, Clone)]
pub enum LookupAction {
    /// List the containers of the current directory (engine arguments).
    ListCwd(Vec<String>),
    /// Check that the container exists (engine arguments).
    CheckExists(Vec<String>),
    /// Describe the container (engine arguments).
    Inspect(Vec<String>),
    /// The container, found, with its description.
    Found(String, ContainerInfo),
    /// The search failed.
    Fail(CommandError),
}

/// The step that asks for the description of `name`.
pub open spec fn inspect_step(ctx: Context, name: Seq<char>, r: (LookupState, LookupAction)) -> bool {
    &&& r.0 matches LookupState::AwaitInspect(n) && n@ == name
    &&& r.1 matches LookupAction::Inspect(a) && a.deep_view() == ctx.engine.spec_inspect_args(seq![name])
}

/// The search failed with `e`.
pub open spec fn lookup_fails(r: (LookupState, LookupAction), e: CommandError) -> bool {
    r.0 is Done && r.1 == LookupAction::Fail(e)
}

fn inspect_next(ctx: &Context, name: String) -> (r: (LookupState, LookupAction))
    ensures
        inspect_step(*ctx, name@, r),
{
    let mut names: Vec<String> = Vec::new();
    names.push(name.clone());
    assert(names.deep_view() =~= seq![name@]);
    let args = ctx.engine.inspect_containers_args(&names);
    (LookupState::AwaitInspect(name), LookupAction::Inspect(args))
}

/// One step of the search for the container a command works on: the name
/// given, or else the first container of the current directory; a given
/// name is checked to exist unless this is a dry run; the container is then
/// described.
pub fn lookup_container(ctx: &Context, name: &str, state: LookupState, input: LookupInput) -> (r: (LookupState, LookupAction))
    requires
        state is AwaitInspect ==> (input matches LookupInput::Inspected(v) ==> v.len() > 0),
        state matches LookupState::AwaitExists(n) ==> n@.len() > 0,
    ensures
        r.0 matches LookupState::AwaitExists(n) ==> n@.len() > 0,
        match (state, input) {
            (LookupState::Start, LookupInput::Begin) => if name@.len() == 0 {
                &&& r.0 is AwaitCwd
                &&& r.1 matches LookupAction::ListCwd(a) && a.deep_view() == ctx.engine.spec_list_args(ctx.cwd_labels())
            } else if !ctx.dry_run {
                &&& r.0 matches LookupState::AwaitExists(n) && n@ == name@
                &&& r.1 matches LookupAction::CheckExists(a) && a.deep_view() == ctx.engine.spec_container_exists_args(name@)
            } else {
                inspect_step(*ctx, name@, r)
            },
            (LookupState::AwaitCwd, LookupInput::CwdContainers(l)) => if l.len() == 0 {
                lookup_fails(r, CommandError::NoCwdContainer)
            } else {
                inspect_step(*ctx, l[0]@, r)
            },
            (LookupState::AwaitExists(n), LookupInput::ExistsCode(c)) => match exists_answer(c) {
                Some(true) => inspect_step(*ctx, n@, r),
                Some(false) => r.0 is Done && (r.1 matches LookupAction::Fail(CommandError::ContainerMissing(m)) && m@ == n@),
                None => r.0 is Done && (r.1 matches LookupAction::Fail(CommandError::Engine(_))),
            },
            (LookupState::AwaitInspect(n), LookupInput::Inspected(v)) => {
                &&& r.0 is Done
                &&& r.1 matches LookupAction::Found(m, i) && m@ == n@ && i == v[0]
            },
            _ => lookup_fails(r, CommandError::Unexpected),
        },
{
    match (state, input) {
        (LookupState::Start, LookupInput::Begin) => {
            // try to find container in current directory
            if name.is_empty() {
                (LookupState::AwaitCwd, LookupAction::ListCwd(ctx.cwd_containers_args()))
            } else if !ctx.dry_run {
                (LookupState::AwaitExists(copy_str(name)), LookupAction::CheckExists(ctx.engine.container_exists_args(name)))
            } else {
                inspect_next(ctx, copy_str(name))
            }
        },
        (LookupState::AwaitCwd, LookupInput::CwdContainers(l)) => {
            if l.len() == 0 {
                (LookupState::Done, LookupAction::Fail(CommandError::NoCwdContainer))
            } else {
                inspect_next(ctx, l[0].clone())
            }
        },
        (LookupState::AwaitExists(n), LookupInput::ExistsCode(c)) => {
            match ctx.engine.container_exists(n.as_str(), c) {
                Ok(true) => inspect_next(ctx, n),
                Ok(false) => (LookupState::Done, LookupAction::Fail(CommandError::ContainerMissing(n))),
                Err(e) => (LookupState::Done, LookupAction::Fail(CommandError::Engine(e))),
            }
        },
        (LookupState::AwaitInspect(n), LookupInput::Inspected(v)) => {
            let mut v = v;
            let info = v.remove(0);
            (LookupState::Done, LookupAction::Found(n, info))
        },
        _ => (LookupState::Done, LookupAction::Fail(CommandError::Unexpected)),
    }
}

} // verus!
