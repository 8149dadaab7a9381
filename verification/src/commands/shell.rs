//! Opening an interactive shell inside a container.
use vstd::prelude::*;
use crate::commands::{CommandError, CommandPlan};
use crate::commands::exec::{term_or_default, term_value};
use crate::consts::{CONTAINER_LABEL_CONTAINER_DIR, CONTAINER_LABEL_USER_SHELL};
use crate::context::Context;
use crate::engine::{label_lookup, ContainerInfo};
use crate::text::{concat, copy_str, push_owned, push_string};

verus! {

/// Engine arguments that open the login shell `sh` of `user` in container
/// `name`, in its project directory `ws`.
pub open spec fn shell_args(user: Seq<char>, ws: Seq<char>, sh: Seq<char>, term: Seq<char>, name: Seq<char>) -> Seq<Seq<char>> {
    seq![
        "exec"@, "-it"@,
        "--env=TERM="@ + term,
        "--env=HOME=/home/"@ + user,
        "--env=SHELL="@ + sh,
        "--workdir"@, ws,
        "--user"@, user,
        name,
        "sh"@, "-l"@, "-c"@,
        "exec "@ + sh
    ]
}

/// Builds the command that opens a shell in the container `name` described
/// by `info`, in the project directory, through `sh -l` so that the profile
/// is always read: the shell asked for (`--shell`), else the shell of the
/// user (the label that records it). Fails when the container is not owned
/// by the application, or no shell is asked for and it has no shell label.
pub fn open_shell(ctx: &Context, name: &str, info: &ContainerInfo, shell: Option<&str>, term: Option<&str>) -> (r: Result<CommandPlan, CommandError>)
    ensures
        match (label_lookup(info.labels@, CONTAINER_LABEL_CONTAINER_DIR@), shell, label_lookup(info.labels@, CONTAINER_LABEL_USER_SHELL@)) {
            (None, _, _) => r matches Err(CommandError::NotOwned(n)) && n@ == name@,
            (Some(ws), Some(s), _) => r matches Ok(p) && p.dry_run == ctx.dry_run
                && p.args.deep_view() == shell_args(ctx.user@, ws, s@, term_or_default(term), name@),
            (Some(_), None, None) => r matches Err(CommandError::MissingLabel(n, l)) && n@ == name@ && l@ == CONTAINER_LABEL_USER_SHELL@,
            (Some(ws), None, Some(sh)) => r matches Ok(p) && p.dry_run == ctx.dry_run
                && p.args.deep_view() == shell_args(ctx.user@, ws, sh, term_or_default(term), name@),
        },
{
    let ws_dir = match info.label(CONTAINER_LABEL_CONTAINER_DIR) {
        Some(w) => w,
        None => return Err(CommandError::NotOwned(copy_str(name))),
    };
    let user_shell = match shell {
        // a shell asked for replaces the one of the user
        Some(s) => copy_str(s),
        None => match info.label(CONTAINER_LABEL_USER_SHELL) {
            Some(s) => s,
            None => return Err(CommandError::MissingLabel(copy_str(name), copy_str(CONTAINER_LABEL_USER_SHELL))),
        },
    };
    let term_text = term_value(term);
    let mut a: Vec<String> = Vec::new();
    push_string(&mut a, "exec");
    push_string(&mut a, "-it");
    push_owned(&mut a, concat("--env=TERM=", term_text.as_str()));
    push_owned(&mut a, concat("--env=HOME=/home/", ctx.user.as_str()));
    push_owned(&mut a, concat("--env=SHELL=", user_shell.as_str()));
    push_string(&mut a, "--workdir");
    push_owned(&mut a, ws_dir);
    push_string(&mut a, "--user");
    push_string(&mut a, ctx.user.as_str());
    push_string(&mut a, name);
    // always source the profile, even where the shell is a script or not posix
    push_string(&mut a, "sh");
    push_string(&mut a, "-l");
    push_string(&mut a, "-c");
    push_owned(&mut a, concat("exec ", user_shell.as_str()));
    assert(a.deep_view() =~= shell_args(ctx.user@, label_lookup(info.labels@, CONTAINER_LABEL_CONTAINER_DIR@)->0,
        user_shell@, term_or_default(term), name@));
    Ok(CommandPlan { args: a, dry_run: ctx.dry_run })
}

} // verus!
