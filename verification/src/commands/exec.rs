//! Running a command inside a container.
use vstd::prelude::*;
use crate::cli::CmdExecArgs;
use crate::commands::{CommandError, CommandPlan};
use crate::consts::CONTAINER_LABEL_CONTAINER_DIR;
use crate::context::Context;
use crate::engine::{label_lookup, ContainerInfo};
use crate::text::{concat, copy_str, join, join_strings, push_all, push_owned, push_string};

verus! {

/// The terminal type handed to the container: the one of the host, else `xterm`.
pub open spec fn term_or_default(term: Option<&str>) -> Seq<char> {
    match term {
        Some(t) => t@,
        None => "xterm"@,
    }
}

/// The value of `TERM` for the container.
pub fn term_value(term: Option<&str>) -> (r: String)
    ensures
        r@ == term_or_default(term),
{
    match term {
        Some(t) => copy_str(t),
        None => copy_str("xterm"),
    }
}

/// Engine arguments that run the command of `args` in container `name` whose
/// project directory is `ws`, as `user`.
pub open spec fn exec_args(user: Seq<char>, ws: Seq<char>, term: Seq<char>, args: CmdExecArgs, name: Seq<char>) -> Seq<Seq<char>> {
    let head = seq!["exec"@, "-it"@, "--workdir="@ + ws, "--user="@ + user, "--env=TERM="@ + term];
    match args.shell {
        Some(sh) => head + seq!["--env=SHELL="@ + sh@, name, sh@]
            + (if args.login { seq!["-l"@] } else { Seq::<Seq<char>>::empty() })
            + seq!["-c"@, join(args.command.deep_view(), " "@)],
        None => head + seq![name] + args.command.deep_view(),
    }
}

/// Builds the command that executes `cli_args.command` in the container
/// `name` described by `info`: in the project directory, as the user, with
/// the terminal type `term` (`xterm` when unknown); through the shell of
/// `--shell` when one is given, the command joined by spaces. Fails when the
/// container is not owned by the application (it has no project directory
/// label).
pub fn container_exec(ctx: &Context, cli_args: &CmdExecArgs, name: &str, info: &ContainerInfo, term: Option<&str>) -> (r: Result<CommandPlan, CommandError>)
    ensures
        match label_lookup(info.labels@, CONTAINER_LABEL_CONTAINER_DIR@) {
            None => r matches Err(CommandError::NotOwned(n)) && n@ == name@,
            Some(ws) => r matches Ok(p) && p.dry_run == ctx.dry_run
                && p.args.deep_view() == exec_args(ctx.user@, ws, term_or_default(term), *cli_args, name@),
        },
{
    // check if container is owned
    let ws_dir = match info.label(CONTAINER_LABEL_CONTAINER_DIR) {
        Some(w) => w,
        None => return Err(CommandError::NotOwned(copy_str(name))),
    };
    let term_text = term_value(term);
    let mut a: Vec<String> = Vec::new();
    push_string(&mut a, "exec");
    push_string(&mut a, "-it");
    push_owned(&mut a, concat("--workdir=", ws_dir.as_str()));
    push_owned(&mut a, concat("--user=", ctx.user.as_str()));
    push_owned(&mut a, concat("--env=TERM=", term_text.as_str()));
    let ghost head = a.deep_view();
    match &cli_args.shell {
        Some(shell) => {
            push_owned(&mut a, concat("--env=SHELL=", shell.as_str()));
            push_string(&mut a, name);
            push_string(&mut a, shell.as_str());
            let ghost mid = a.deep_view();
            // add -l and hope for the best
            if cli_args.login {
                push_string(&mut a, "-l");
            }
            let ghost with_login = a.deep_view();
            push_string(&mut a, "-c");
            // run the command as one big concatenated string
            push_owned(&mut a, join_strings(&cli_args.command, " "));
            proof {
                if cli_args.login {
                    assert(with_login =~= mid + seq!["-l"@]);
                } else {
                    assert(with_login =~= mid + Seq::<Seq<char>>::empty());
                }
            }
            assert(a.deep_view() =~= exec_args(ctx.user@, ws_dir@, term_or_default(term), *cli_args, name@));
        },
        None => {
            push_string(&mut a, name);
            // just execute verbatim
            push_all(&mut a, &cli_args.command);
            assert(a.deep_view() =~= exec_args(ctx.user@, ws_dir@, term_or_default(term), *cli_args, name@));
        },
    }
    Ok(CommandPlan { args: a, dry_run: ctx.dry_run })
}

/// Through a shell (`--shell`), the container runs the shell with `-c` and
/// the command joined by spaces, and `-l` (a login shell) stands before `-c`
/// exactly when `--login` is given: the arguments end with the container,
/// the shell, then `-l` only on login, `-c` and the command. Without a shell
/// the command follows the container as it is.
pub proof fn law_exec_login_shell(user: Seq<char>, ws: Seq<char>, term: Seq<char>, args: CmdExecArgs, name: Seq<char>)
    ensures
        ({
            let a = exec_args(user, ws, term, args, name);
            &&& a.subrange(0, 2) == seq!["exec"@, "-it"@]
            &&& match args.shell {
                Some(sh) => {
                    &&& a[6] == name
                    &&& a[7] == sh@
                    &&& args.login ==> a.len() == 11 && a.subrange(8, 11) == seq!["-l"@, "-c"@, join(args.command.deep_view(), " "@)]
                    &&& !args.login ==> a.len() == 10 && a.subrange(8, 10) == seq!["-c"@, join(args.command.deep_view(), " "@)]
                },
                None => a[5] == name && a.subrange(6, a.len() as int) == args.command.deep_view(),
            }
        }),
{
    let a = exec_args(user, ws, term, args, name);
    assert(a.subrange(0, 2) =~= seq!["exec"@, "-it"@]);
    match args.shell {
        Some(sh) => {
            if args.login {
                assert(a.subrange(8, 11) =~= seq!["-l"@, "-c"@, join(args.command.deep_view(), " "@)]);
            } else {
                assert(a.subrange(8, 10) =~= seq!["-c"@, join(args.command.deep_view(), " "@)]);
            }
        },
        None => {
            assert(a.subrange(6, a.len() as int) =~= args.command.deep_view());
        },
    }
}

} // verus!
