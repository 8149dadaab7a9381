//! Listing containers, their logs, their existence, and completion helpers.
use vstd::prelude::*;
use crate::cli::CmdListArgs;
use crate::command_ext::{lines_of, lossy_text, split_lines, utf8_lossy, CommandLine, CommandOutput};
use crate::consts::{APP_NAME, CONTAINER_LABEL_HOST_DIR};
use crate::context::Context;
use crate::engine::exists_answer;
use crate::text::{
    concat, concat4, copy_str, debug_quoted, has_suffix, ends_with, push_owned, push_str, push_string, split_char,
    split_on, str_debug, str_eq, string_of_range, chars_of, trim_start, trim_start_spec,
};

verus! {

/// The engine arguments that list the containers of the application (name,
/// image, host directory and ports, separated by tabs), those of the current
/// directory only when asked.
pub open spec fn list_args(ctx: Context, args: CmdListArgs) -> Seq<Seq<char>> {
    seq!["container"@, "ls"@, "--filter"@, "label="@ + APP_NAME@, "--format"@,
        "{{.Names}}\t{{.Image}}\t{{.Labels."@ + CONTAINER_LABEL_HOST_DIR@ + "}}\t{{.Ports}}"@]
        + if args.here {
            seq!["--filter"@, "label="@ + CONTAINER_LABEL_HOST_DIR@ + "="@ + ctx.cwd@]
        } else {
            Seq::empty()
        }
}

/// `list` shows every container of the application and narrows to those of
/// the current directory only with `--here`: without it the arguments are
/// the six fixed ones, with it the same six followed by the filter on the
/// host directory label being the working directory.
pub proof fn law_list_here_only_when_asked(ctx: Context, args: CmdListArgs)
    ensures
        !args.here ==> list_args(ctx, args).len() == 6,
        args.here ==> list_args(ctx, args).len() == 8
            && list_args(ctx, args)[6] == "--filter"@
            && list_args(ctx, args)[7] == "label="@ + CONTAINER_LABEL_HOST_DIR@ + "="@ + ctx.cwd@,
        list_args(ctx, args).subrange(0, 6) == list_args(ctx, CmdListArgs { raw: args.raw, here: !args.here }).take(6),
        list_args(ctx, args).subrange(0, 4) == seq!["container"@, "ls"@, "--filter"@, "label="@ + APP_NAME@],
{
    let a = list_args(ctx, args);
    let b = list_args(ctx, CmdListArgs { raw: args.raw, here: !args.here });
    assert(a.subrange(0, 6) =~= b.take(6));
    assert(a.subrange(0, 4) =~= seq!["container"@, "ls"@, "--filter"@, "label="@ + APP_NAME@]);
}

/// The engine arguments that list the containers (see `list_args`).
pub fn print_containers_args(ctx: &Context, args: &CmdListArgs) -> (r: Vec<String>)
    ensures
        r.deep_view() == list_args(*ctx, *args),
{
    let mut r: Vec<String> = Vec::new();
    push_string(&mut r, "container");
    push_string(&mut r, "ls");
    push_string(&mut r, "--filter");
    push_owned(&mut r, concat("label=", APP_NAME));
    push_string(&mut r, "--format");
    let mut f = copy_str("{{.Names}}\t{{.Image}}\t{{.Labels.");
    crate::text::push_str(&mut f, CONTAINER_LABEL_HOST_DIR);
    crate::text::push_str(&mut f, "}}\t{{.Ports}}");
    push_owned(&mut r, f);
    // filter the containers by host directory
    if args.here {
        push_string(&mut r, "--filter");
        push_owned(&mut r, concat4("label=", CONTAINER_LABEL_HOST_DIR, "=", ctx.cwd.as_str()));
    }
    assert(r.deep_view() =~= list_args(*ctx, *args));
    r
}

/// The columns of a listed line: the line without leading white space,
/// split at tabs.
pub open spec fn listing_columns(line: Seq<char>) -> Seq<Seq<char>> {
    split_on(trim_start_spec(line), '\t')
}

/// Every listed line has its four columns.
pub open spec fn listing_complete(lines: Seq<Seq<char>>) -> bool {
    forall|i: int| 0 <= i < lines.len() ==> #[trigger] listing_columns(lines[i]).len() >= 4
}

/// What is shown of one container (columns name, image, host directory,
/// ports): its name and directory, marked with `*` when it is the current
/// directory `cwd`, its image, and its ports when it publishes any.
pub open spec fn entry_text(cols: Seq<Seq<char>>, cwd: Seq<char>) -> Seq<char> {
    "Container "@ + str_debug(cols[0]) + " at "@ + cols[2] + " "@ + (if cols[2] == cwd { "*"@ } else { " "@ }) + "\n"@
        + "  image: "@ + cols[1] + "\n"@
        + if cols[3].len() > 0 { "  ports: "@ + cols[3] + "\n"@ } else { Seq::<char>::empty() }
}

/// What is shown of the listed containers: their entries, separated by empty
/// lines.
pub open spec fn listing_text(lines: Seq<Seq<char>>, cwd: Seq<char>) -> Seq<char>
    decreases lines.len(),
{
    if lines.len() == 0 {
        Seq::empty()
    } else {
        listing_text(lines.drop_last(), cwd) + (if lines.len() > 1 { "\n"@ } else { Seq::<char>::empty() })
            + entry_text(listing_columns(lines.last()), cwd)
    }
}

/// What is shown of one container (see `entry_text`).
fn entry_of(cols: &Vec<String>, cwd: &str) -> (r: String)
    requires
        cols.len() >= 4,
    ensures
        r@ == entry_text(cols.deep_view(), cwd@),
{
    let mut out = copy_str("Container ");
    let name = debug_quoted(cols[0].as_str());
    push_str(&mut out, name.as_str());
    push_str(&mut out, " at ");
    push_str(&mut out, cols[2].as_str());
    push_str(&mut out, " ");
    if str_eq(cols[2].as_str(), cwd) {
        push_str(&mut out, "*");
    } else {
        push_str(&mut out, " ");
    }
    push_str(&mut out, "\n");
    push_str(&mut out, "  image: ");
    push_str(&mut out, cols[1].as_str());
    push_str(&mut out, "\n");
    if !cols[3].as_str().is_empty() {
        push_str(&mut out, "  ports: ");
        push_str(&mut out, cols[3].as_str());
        push_str(&mut out, "\n");
    }
    proof {
        assert(cols.deep_view()[0] == cols@[0]@);
        assert(cols.deep_view()[1] == cols@[1]@);
        assert(cols.deep_view()[2] == cols@[2]@);
        assert(cols.deep_view()[3] == cols@[3]@);
    }
    assert(out@ =~= entry_text(cols.deep_view(), cwd@));
    out
}

/// The text that shows the containers listed in `output` (see
/// `print_containers_args`), for the current directory `cwd`; `None` when a
/// line lacks one of its four columns.
pub fn containers_listing(output: &CommandOutput, cwd: &str) -> (r: Option<String>)
    ensures
        listing_complete(lines_of(utf8_lossy(output.stdout@))) ==> (r matches Some(t)
            && t@ == listing_text(lines_of(utf8_lossy(output.stdout@)), cwd@)),
        !listing_complete(lines_of(utf8_lossy(output.stdout@))) ==> r is None,
{
    let text = lossy_text(&output.stdout);
    let lines = split_lines(text.as_str());
    let ghost ls = lines.deep_view();
    let mut out = String::new();
    let mut i: usize = 0;
    while i < lines.len()
        invariant
            i <= lines.len(),
            ls == lines.deep_view(),
            ls == lines_of(utf8_lossy(output.stdout@)),
            out@ == listing_text(ls.subrange(0, i as int), cwd@),
            listing_complete(ls.subrange(0, i as int)),
        decreases lines.len() - i,
    {
        let trimmed = trim_start(lines[i].as_str());
        let cols = split_char(trimmed.as_str(), '\t');
        assert(ls[i as int] == lines@[i as int]@);
        if cols.len() < 4 {
            assert(!listing_complete(ls)) by {
                assert(listing_columns(ls[i as int]).len() < 4);
            }
            return None;
        }
        let ghost before = out@;
        if i > 0 {
            push_str(&mut out, "\n");
        }
        let entry = entry_of(&cols, cwd);
        push_str(&mut out, entry.as_str());
        proof {
            let cs = listing_columns(ls[i as int]);
            assert(cs == cols.deep_view());
            let next = ls.subrange(0, i + 1);
            assert(next.drop_last() =~= ls.subrange(0, i as int));
            assert(next.last() == ls[i as int]);
            assert(out@ =~= before + (if next.len() > 1 { "\n"@ } else { Seq::<char>::empty() }) + entry_text(cs, cwd@));
            assert forall|j: int| 0 <= j < next.len() implies #[trigger] listing_columns(next[j]).len() >= 4 by {
                if j < i {
                    assert(next[j] == ls.subrange(0, i as int)[j]);
                }
            }
        }
        i = i + 1;
    }
    assert(ls.subrange(0, i as int) =~= ls);
    Some(out)
}

/// The command that shows the logs of container `name`, following them when asked.
pub fn print_logs_command(name: &str, follow: bool) -> (r: CommandLine)
    ensures
        r.program@ == "journalctl"@,
        r.args.deep_view() == seq!["-t"@, name@] + if follow { seq!["--follow"@] } else { Seq::<Seq<char>>::empty() },
{
    let mut args: Vec<String> = Vec::new();
    push_string(&mut args, "-t");
    push_string(&mut args, name);
    if follow {
        // follow the output
        push_string(&mut args, "--follow");
    }
    assert(args.deep_view() =~= seq!["-t"@, name@] + if follow { seq!["--follow"@] } else { Seq::<Seq<char>>::empty() });
    CommandLine { program: copy_str("journalctl"), args }
}

/// The exit code of `exists`: without a name, 0 when a container runs in the
/// current directory (`cwd_count` of them, or `None` when they could not be
/// listed); with a name, 0 when the check says it exists, 1 when it says it
/// does not, `None` (an error) for any other code of the check.
pub fn container_exists_code(named: bool, cwd_count: Option<usize>, check_code: u8) -> (r: Option<u8>)
    ensures
        !named ==> r == Some(if cwd_count matches Some(n) && n > 0 { 0u8 } else { 1u8 }),
        named ==> r == match exists_answer(check_code) {
            Some(true) => Some(0u8),
            Some(false) => Some(1u8),
            None => None::<u8>,
        },
{
    if !named {
        // containers of the current directory are always owned
        match cwd_count {
            Some(n) => if n > 0 { Some(0) } else { Some(1) },
            None => Some(1),
        }
    } else if check_code == 0 {
        Some(0)
    } else if check_code == 1 {
        Some(1)
    } else {
        None
    }
}

/// The completion of a configuration file name: `@` and the name without
/// `.toml`, for a `.toml` file only.
pub open spec fn config_completion(file: Seq<char>) -> Option<Seq<char>> {
    if has_suffix(file, ".toml"@) {
        Some("@"@ + file.subrange(0, file.len() - 5))
    } else {
        None
    }
}

/// The completion of a configuration file name (see `config_completion`).
pub fn complete_config(file: &str) -> (r: Option<String>)
    ensures
        match config_completion(file@) {
            Some(c) => r matches Some(s) && s@ == c,
            None => r is None,
        },
{
    if ends_with(file, ".toml") {
        proof {
            reveal_strlit(".toml");
        }
        let cs = chars_of(file);
        let name = string_of_range(&cs, 0, cs.len() - 5);
        Some(concat("@", name.as_str()))
    } else {
        None
    }
}

/// The engine arguments that list the names of the containers of the application.
pub fn complete_containers_args() -> (r: Vec<String>)
    ensures
        r.deep_view() == seq!["container"@, "ls"@, "--filter"@, "label="@ + APP_NAME@, "--format"@, "{{.Names}}"@],
{
    let mut r: Vec<String> = Vec::new();
    push_string(&mut r, "container");
    push_string(&mut r, "ls");
    push_string(&mut r, "--filter");
    push_owned(&mut r, concat("label=", APP_NAME));
    push_string(&mut r, "--format");
    push_string(&mut r, "{{.Names}}");
    assert(r.deep_view() =~= seq!["container"@, "ls"@, "--filter"@, "label="@ + APP_NAME@, "--format"@, "{{.Names}}"@]);
    r
}

/// A shell that completion scripts are generated for.
#[derive(Debug, Clone, Copy, PartialEq, Eq)]
pub enum CompletionShell {
    Fish,
    Bash,
    Zsh,
}

/// The shell named by the path in `SHELL` (`shell`), when completions can
/// be generated for it.
pub open spec fn shell_of(shell: Option<Seq<char>>) -> Option<CompletionShell> {
    match shell {
        Some(s) => if has_suffix(s, "/fish"@) {
            Some(CompletionShell::Fish)
        } else if has_suffix(s, "/bash"@) {
            Some(CompletionShell::Bash)
        } else if has_suffix(s, "/zsh"@) {
            Some(CompletionShell::Zsh)
        } else {
            None
        },
        None => None,
    }
}

/// Detects the shell to generate completions for from `SHELL` (see `shell_of`).
pub fn detect_shell(shell: Option<&str>) -> (r: Option<CompletionShell>)
    ensures
        r == shell_of(match shell { Some(s) => Some(s@), None => None }),
{
    match shell {
        Some(s) => if ends_with(s, "/fish") {
            Some(CompletionShell::Fish)
        } else if ends_with(s, "/bash") {
            Some(CompletionShell::Bash)
        } else if ends_with(s, "/zsh") {
            Some(CompletionShell::Zsh)
        } else {
            None
        },
        None => None,
    }
}

} // verus!
