//! The steps of the init that runs inside a container: each takes what the
//! last action gave and tells what to do next.
use vstd::prelude::*;
use crate::command_ext::CommandLine;
use crate::commands::init::{
    default_shell, init_user, name_order, script_command, script_order, skel_copy, sudoers_lines, user_setup_args,
    user_setup_command, InitUser,
};
use crate::consts::{FLAG_FILE_INIT, INIT_D_DIR};
use crate::paths::{join_path, path_join};
use crate::text::{copy_str, parse_u32_spec, push_owned, push_string};

verus! {

/// What the host of the init tells first: the variables that name the user
/// (`HOST_USER`, `HOST_USER_UID`, `HOST_USER_GID`), whether `/bin/bash`
/// exists, and `XDG_RUNTIME_DIR`.
#[derive(Debug, Clone)]
pub struct InitHost {
    pub user: Option<String>,
    pub uid: Option<String>,
    pub gid: Option<String>,
    pub bash: bool,
    pub runtime_dir: Option<String>,
}

/// An entry of the directory of init scripts: its name, its permission
/// bits (`None` when they could not be read), and whether it is a file or a
/// symlink (the only entries that are run).
#[derive(Debug, Clone)]
pub struct ScriptEntry {
    pub name: String,
    pub mode: Option<u32>,
    pub runnable: bool,
}

/// What the init knows of the user once it is read.
#[derive(Debug, Clone)]
pub struct InitContext {
    /// The user.
    pub user: InitUser,
    /// Its shell.
    pub shell: String,
    /// The runtime directory of the user, when set.
    pub runtime_dir: Option<String>,
}

/// Why the init failed.
#[derive(Debug, Clone, PartialEq, Eq)]
pub enum InitError {
    /// A variable that names the user is undefined (the message).
    Undefined(String),
    /// Creating or modifying the user failed.
    SetupFailed,
    /// The font cache could not be regenerated.
    FontCacheFailed,
    /// `XDG_RUNTIME_DIR` is undefined.
    RuntimeUndefined,
    /// Removing the password of root failed (the exit code).
    PasswdFailed(u8),
    /// This init script failed.
    ScriptFailed(String),
    /// A step got an answer it does not wait for.
    Unexpected,
}

/// Where the init stands.
#[derive(Debug, Clone)]
pub enum InitState {
    /// Nothing done yet.
    Start,
    /// Waiting for the check whether the user exists.
    AwaitGetent(InitContext),
    /// Waiting for the user to be created or modified.
    AwaitSetup(InitContext),
    /// Waiting for the home directory to be made and given to the user.
    AwaitHome(InitContext),
    /// Waiting for the font cache.
    AwaitFontCache(InitContext),
    /// Waiting for the listing of the skeleton.
    AwaitSkel(InitContext),
    /// Waiting for the skeleton to be copied into the home.
    AwaitCopy(InitContext),
    /// Waiting for the runtime directory.
    AwaitRuntime(InitContext),
    /// Waiting for the check whether sudo is installed.
    AwaitSudoCheck(InitContext),
    /// Waiting for the sudoers file to be extended.
    AwaitSudoers(InitContext),
    /// Waiting for the password of root to be removed.
    AwaitPasswd(InitContext),
    /// Waiting for the entries of the directory of init scripts (whether sudo
    /// is installed).
    AwaitScripts(InitContext, bool),
    /// Waiting for the scripts to be made executable (the scripts to run, in
    /// order).
    AwaitExecBits(InitContext, bool, Vec<String>),
    /// Waiting for the first of these scripts to run.
    AwaitScript(InitContext, bool, Vec<String>),
    /// Waiting for the flag that tells the init is done to be written.
    AwaitFlag,
    /// Nothing more to do.
    Done,
}

/// What the last action gave.
#[derive(Debug, Clone)]
pub enum InitEvent {
    /// Start.
    Begin,
    /// What the host tells (see `InitHost`).
    Host(InitHost),
    /// The exit code of the command that was run.
    Status(u8),
    /// The command could not be run.
    NotRun,
    /// The action was carried out.
    Finished,
    /// The skeleton: its directories and its files (with symlinks), as paths
    /// relative to it, directories before what they hold.
    Skel(Vec<String>, Vec<String>),
    /// Whether sudo is installed.
    Found(bool),
    /// The entries of the directory of init scripts (`None` when it does not
    /// exist).
    Scripts(Option<Vec<ScriptEntry>>),
}

/// What to do next.
#[derive(Debug, Clone)]
pub enum InitAction {
    /// Read what the host tells (see `InitHost`).
    ReadHost,
    /// Run this command and tell its exit code.
    Run(CommandLine),
    /// Create the home directory when missing and give it to the user and
    /// group (path, user id, group id).
    PrepareHome(String, u32, u32),
    /// List the skeleton (`/etc/skel`).
    ListSkel,
    /// Copy the skeleton: the directories (source, destination), created when
    /// missing with the permissions of the source, then the files (source,
    /// destination), symlinks as symlinks; each given to the user and group.
    CopySkel(Vec<(String, String)>, Vec<(String, String)>, u32, u32),
    /// Create the runtime directory, give it to the user and group, with
    /// permissions `0o700`.
    PrepareRuntime(String, u32, u32),
    /// Check whether sudo is installed.
    CheckSudo,
    /// Append this text to the sudoers file.
    AppendSudoers(String),
    /// List the entries of the directory of init scripts.
    ListScripts(String),
    /// Allow everyone to execute these files.
    MakeExecutable(Vec<String>),
    /// Write the text into the file (path, text).
    WriteFlag(String, String),
    /// The init is done.
    Complete,
    /// The init failed.
    Fail(InitError),
}

/// The command that checks whether `user` exists.
pub open spec fn getent_args(user: Seq<char>) -> Seq<Seq<char>> {
    seq!["passwd"@, user]
}

/// The command that removes the password of root.
pub open spec fn passwd_args() -> Seq<Seq<char>> {
    seq!["-d"@, "root"@]
}

/// `c` is the command `program` with `args`.
pub open spec fn runs(c: CommandLine, program: Seq<char>, args: Seq<Seq<char>>) -> bool {
    c.program@ == program && c.args.deep_view() == args
}

/// The command that runs init script `file` as `user`: through sudo when it
/// is installed, else through su.
pub open spec fn script_line(has_sudo: bool, user: Seq<char>, file: Seq<char>, c: CommandLine) -> bool {
    if has_sudo {
        runs(c, "sudo"@, seq!["-u"@, user, file])
    } else {
        runs(c, "su"@, seq![user, "-c"@, file])
    }
}

/// The files an entry needs execution allowed for: those whose permissions
/// could not be read or that nobody may execute.
pub open spec fn needs_bits(e: ScriptEntry) -> bool {
    match e.mode {
        None => true,
        Some(m) => m & 0o111u32 == 0,
    }
}

/// The paths of the entries that need execution allowed, in order.
pub open spec fn exec_targets(es: Seq<ScriptEntry>) -> Seq<Seq<char>>
    decreases es.len(),
{
    if es.len() == 0 {
        Seq::empty()
    } else {
        let r = exec_targets(es.drop_last());
        if needs_bits(es.last()) {
            r.push(path_join(INIT_D_DIR@, es.last().name@))
        } else {
            r
        }
    }
}

/// The names of the entries that are run (files and symlinks), in order.
pub open spec fn runnable_names(es: Seq<ScriptEntry>) -> Seq<Seq<char>>
    decreases es.len(),
{
    if es.len() == 0 {
        Seq::empty()
    } else {
        let r = runnable_names(es.drop_last());
        if es.last().runnable {
            r.push(es.last().name@)
        } else {
            r
        }
    }
}

/// The init scripts to run, in the order of their names.
pub open spec fn scripts_of(es: Seq<ScriptEntry>) -> Seq<Seq<char>> {
    runnable_names(es).sort_by(name_order()).map_values(|n: Seq<char>| path_join(INIT_D_DIR@, n))
}

/// The init context made of the host answer and the user read from it.
pub open spec fn context_of(h: InitHost, u: InitUser, c: InitContext) -> bool {
    &&& c.user == u
    &&& c.shell@ == (if h.bash { "/bin/bash"@ } else { "/bin/sh"@ })
    &&& c.runtime_dir == h.runtime_dir
}

/// The next script of `files` runs, or the flag is written when none is left.
pub open spec fn next_script(c: InitContext, has_sudo: bool, files: Seq<String>, r: (InitState, InitAction)) -> bool {
    if files.len() == 0 {
        &&& r.0 is AwaitFlag
        &&& r.1 matches InitAction::WriteFlag(p, t) && p@ == FLAG_FILE_INIT@ && t@ == "y"@
    } else {
        &&& r.0 matches InitState::AwaitScript(c2, s2, v) && c2 == c && s2 == has_sudo && v@ == files
        &&& r.1 matches InitAction::Run(l) && script_line(has_sudo, c.user.user@, files[0]@, l)
    }
}

/// The init failed with `e`.
pub open spec fn init_fails(r: (InitState, InitAction), e: InitError) -> bool {
    r.0 is Done && r.1 == InitAction::Fail(e)
}

/// The init failed as a variable that names the user is undefined.
pub open spec fn undefined_fails(r: (InitState, InitAction), message: Seq<char>) -> bool {
    r.0 is Done && (r.1 matches InitAction::Fail(InitError::Undefined(m)) && m@ == message)
}

/// One step of the init (see `init_step`).
pub open spec fn init_step_spec(state: InitState, event: InitEvent, r: (InitState, InitAction)) -> bool {
    match (state, event) {
        (InitState::Start, InitEvent::Begin) => r.0 is Start && r.1 is ReadHost,
        (InitState::Start, InitEvent::Host(h)) => match (h.user, h.uid, h.gid) {
            (None, _, _) => undefined_fails(r, "HOST_USER is undefined"@),
            (Some(_), None, _) => undefined_fails(r, "HOST_USER_UID is undefined"@),
            (Some(_), Some(_), None) => undefined_fails(r, "HOST_USER_GID is undefined"@),
            (Some(u), Some(i), Some(g)) => {
                &&& r.0 matches InitState::AwaitGetent(c) && c.user.user@ == u@ && c.user.uid_text@ == i@
                    && Some(c.user.uid) == parse_u32_spec(i@) && Some(c.user.gid) == parse_u32_spec(g@)
                    && c.user.home@ == "/home/"@ + u@
                    && c.shell@ == (if h.bash { "/bin/bash"@ } else { "/bin/sh"@ }) && c.runtime_dir == h.runtime_dir
                &&& r.1 matches InitAction::Run(l) && runs(l, "getent"@, getent_args(u@))
            },
        },
        (InitState::AwaitGetent(c), InitEvent::Status(code)) => {
            &&& r.0 == InitState::AwaitSetup(c)
            &&& r.1 matches InitAction::Run(l) && runs(l, if code == 0 { "usermod"@ } else { "useradd"@ }, user_setup_args(c.user, c.shell@, code == 0))
        },
        (InitState::AwaitSetup(c), InitEvent::Status(code)) => if code != 0 {
            init_fails(r, InitError::SetupFailed)
        } else {
            r.0 == InitState::AwaitHome(c) && (r.1 matches InitAction::PrepareHome(h, u, g) && h@ == c.user.home@ && u == c.user.uid && g == c.user.gid)
        },
        (InitState::AwaitHome(c), InitEvent::Finished) => r.0 == InitState::AwaitFontCache(c) && (r.1 matches InitAction::Run(l) && runs(l, "fc-cache"@, Seq::empty())),
        (InitState::AwaitFontCache(c), InitEvent::Status(code)) => if code != 0 {
            init_fails(r, InitError::FontCacheFailed)
        } else {
            r.0 == InitState::AwaitSkel(c) && r.1 is ListSkel
        },
        // some images have no font cache tool: that is no error
        (InitState::AwaitFontCache(c), InitEvent::NotRun) => r.0 == InitState::AwaitSkel(c) && r.1 is ListSkel,
        (InitState::AwaitSkel(c), InitEvent::Skel(dirs, files)) => {
            &&& r.0 == InitState::AwaitCopy(c)
            &&& r.1 matches InitAction::CopySkel(d, f, u, g) && u == c.user.uid && g == c.user.gid
                && d@.len() == dirs@.len() && f@.len() == files@.len()
                && (forall|i: int| 0 <= i < dirs@.len() ==> (#[trigger] d@[i]).0@ == path_join("/etc/skel"@, dirs@[i]@) && d@[i].1@ == path_join(c.user.home@, dirs@[i]@))
                && (forall|i: int| 0 <= i < files@.len() ==> (#[trigger] f@[i]).0@ == path_join("/etc/skel"@, files@[i]@) && f@[i].1@ == path_join(c.user.home@, files@[i]@))
        },
        (InitState::AwaitCopy(c), InitEvent::Finished) => match c.runtime_dir {
            None => init_fails(r, InitError::RuntimeUndefined),
            Some(d) => r.0 == InitState::AwaitRuntime(c) && (r.1 matches InitAction::PrepareRuntime(p, u, g) && p@ == d@ && u == c.user.uid && g == c.user.gid),
        },
        (InitState::AwaitRuntime(c), InitEvent::Finished) => r.0 == InitState::AwaitSudoCheck(c) && r.1 is CheckSudo,
        (InitState::AwaitSudoCheck(c), InitEvent::Found(sudo)) => if sudo {
            r.0 == InitState::AwaitSudoers(c) && (r.1 matches InitAction::AppendSudoers(t) && t@ == "Defaults !fqdn\nALL ALL = (ALL) NOPASSWD: ALL\n"@)
        } else {
            r.0 == InitState::AwaitPasswd(c) && (r.1 matches InitAction::Run(l) && runs(l, "passwd"@, passwd_args()))
        },
        (InitState::AwaitSudoers(c), InitEvent::Finished) => r.0 == InitState::AwaitScripts(c, true) && (r.1 matches InitAction::ListScripts(d) && d@ == INIT_D_DIR@),
        (InitState::AwaitPasswd(c), InitEvent::Status(code)) => if code != 0 {
            init_fails(r, InitError::PasswdFailed(code))
        } else {
            r.0 == InitState::AwaitScripts(c, false) && (r.1 matches InitAction::ListScripts(d) && d@ == INIT_D_DIR@)
        },
        (InitState::AwaitScripts(c, s), InitEvent::Scripts(entries)) => match entries {
            None => next_script(c, s, Seq::empty(), r),
            Some(es) => {
                &&& r.0 matches InitState::AwaitExecBits(c2, s2, v) && c2 == c && s2 == s && v.deep_view() == scripts_of(es@)
                &&& r.1 matches InitAction::MakeExecutable(t) && t.deep_view() == exec_targets(es@)
            },
        },
        (InitState::AwaitExecBits(c, s, files), InitEvent::Finished) => next_script(c, s, files@, r),
        (InitState::AwaitScript(c, s, files), InitEvent::Status(code)) => if code != 0 {
            init_fails(r, InitError::ScriptFailed(files@[0]))
        } else {
            next_script(c, s, files@.drop_first(), r)
        },
        (InitState::AwaitFlag, InitEvent::Finished) => r.0 is Done && r.1 is Complete,
        _ => init_fails(r, InitError::Unexpected),
    }
}

/// The next script of `files` runs, or the flag is written when none is left.
fn script_next(c: InitContext, has_sudo: bool, files: Vec<String>) -> (r: (InitState, InitAction))
    ensures
        next_script(c, has_sudo, files@, r),
        r.0 matches InitState::AwaitScript(_, _, v) ==> v.len() > 0,
{
    if files.len() == 0 {
        (InitState::AwaitFlag, InitAction::WriteFlag(copy_str(FLAG_FILE_INIT), copy_str("y")))
    } else {
        let l = script_command(has_sudo, c.user.user.as_str(), files[0].as_str());
        (InitState::AwaitScript(c, has_sudo, files), InitAction::Run(l))
    }
}

/// The sources and destinations of the skeleton paths `rel`, in the home.
fn skel_pairs(home: &str, rel: &Vec<String>) -> (r: Vec<(String, String)>)
    ensures
        r@.len() == rel@.len(),
        forall|i: int| 0 <= i < rel@.len() ==> (#[trigger] r@[i]).0@ == path_join("/etc/skel"@, rel@[i]@) && r@[i].1@ == path_join(home@, rel@[i]@),
{
    let mut r: Vec<(String, String)> = Vec::new();
    let mut i: usize = 0;
    while i < rel.len()
        invariant
            i <= rel.len(),
            r@.len() == i,
            forall|k: int| 0 <= k < i ==> (#[trigger] r@[k]).0@ == path_join("/etc/skel"@, rel@[k]@) && r@[k].1@ == path_join(home@, rel@[k]@),
        decreases rel.len() - i,
    {
        r.push(skel_copy(home, rel[i].as_str()));
        i = i + 1;
    }
    r
}

/// The paths of the entries that need execution allowed (see `exec_targets`).
fn exec_list(es: &Vec<ScriptEntry>) -> (r: Vec<String>)
    ensures
        r.deep_view() == exec_targets(es@),
{
    let mut r: Vec<String> = Vec::new();
    let mut i: usize = 0;
    assert(es@.take(0) =~= Seq::<ScriptEntry>::empty());
    while i < es.len()
        invariant
            i <= es.len(),
            r.deep_view() == exec_targets(es@.take(i as int)),
        decreases es.len() - i,
    {
        assert(es@.take(i + 1).drop_last() =~= es@.take(i as int));
        assert(es@.take(i + 1).last() == es@[i as int]);
        let needs = match es[i].mode {
            None => true,
            Some(m) => m & 0o111 == 0,
        };
        if needs {
            push_owned(&mut r, join_path(INIT_D_DIR, es[i].name.as_str()));
        }
        i = i + 1;
    }
    assert(es@.take(es.len() as int) =~= es@);
    r
}

/// The init scripts to run, in the order of their names (see `scripts_of`).
fn script_list(es: &Vec<ScriptEntry>) -> (r: Vec<String>)
    ensures
        r.deep_view() == scripts_of(es@),
{
    let mut names: Vec<String> = Vec::new();
    let mut i: usize = 0;
    assert(es@.take(0) =~= Seq::<ScriptEntry>::empty());
    while i < es.len()
        invariant
            i <= es.len(),
            names.deep_view() == runnable_names(es@.take(i as int)),
        decreases es.len() - i,
    {
        assert(es@.take(i + 1).drop_last() =~= es@.take(i as int));
        assert(es@.take(i + 1).last() == es@[i as int]);
        if es[i].runnable {
            push_string(&mut names, es[i].name.as_str());
        }
        i = i + 1;
    }
    assert(es@.take(es.len() as int) =~= es@);
    let ordered = script_order(names);
    let ghost ov = ordered.deep_view();
    let mut r: Vec<String> = Vec::new();
    let mut j: usize = 0;
    while j < ordered.len()
        invariant
            j <= ordered.len(),
            ov == ordered.deep_view(),
            r.deep_view() == ov.take(j as int).map_values(|n: Seq<char>| path_join(INIT_D_DIR@, n)),
        decreases ordered.len() - j,
    {
        push_owned(&mut r, join_path(INIT_D_DIR, ordered[j].as_str()));
        j = j + 1;
        assert(r.deep_view() =~= ov.take(j as int).map_values(|n: Seq<char>| path_join(INIT_D_DIR@, n)));
    }
    assert(ov.take(ov.len() as int) =~= ov);
    r
}

/// One step of the init that runs inside a container: read the user from
/// the host; create it (or give it its home and shell); make its home; the
/// font cache (where the tool exists); copy the skeleton into the home; the
/// runtime directory; passwordless sudo, or else root without password; run
/// the init scripts as the user in the order of their names, stopping at the
/// first that fails; at last write the flag that tells the init is done.
pub fn init_step(state: InitState, event: InitEvent) -> (r: (InitState, InitAction))
    requires
        state matches InitState::AwaitScript(_, _, v) ==> v.len() > 0,
        event matches InitEvent::Host(h) ==> (h.user is Some && h.uid is Some && h.gid is Some ==>
            parse_u32_spec(h.uid->0@) is Some && parse_u32_spec(h.gid->0@) is Some),
    ensures
        init_step_spec(state, event, r),
        r.0 matches InitState::AwaitScript(_, _, v) ==> v.len() > 0,
{
    match (state, event) {
        (InitState::Start, InitEvent::Begin) => (InitState::Start, InitAction::ReadHost),
        (InitState::Start, InitEvent::Host(h)) => {
            let u = match (&h.user, &h.uid, &h.gid) {
                (Some(a), Some(b), Some(c)) => init_user(Some(a.as_str()), Some(b.as_str()), Some(c.as_str())),
                (Some(a), Some(b), None) => init_user(Some(a.as_str()), Some(b.as_str()), None),
                (Some(a), None, _) => init_user(Some(a.as_str()), None, None),
                (None, _, _) => init_user(None, None, None),
            };
            match u {
                Err(m) => (InitState::Done, InitAction::Fail(InitError::Undefined(m))),
                Ok(user) => {
                    let mut args: Vec<String> = Vec::new();
                    push_string(&mut args, "passwd");
                    push_string(&mut args, user.user.as_str());
                    assert(args.deep_view() =~= getent_args(user.user@));
                    // by default use bash or sh and let the user set the shell by other means
                    let shell = copy_str(default_shell(h.bash));
                    let c = InitContext { user, shell, runtime_dir: h.runtime_dir };
                    (InitState::AwaitGetent(c), InitAction::Run(CommandLine { program: copy_str("getent"), args }))
                },
            }
        },
        (InitState::AwaitGetent(c), InitEvent::Status(code)) => {
            let l = user_setup_command(&c.user, c.shell.as_str(), code == 0);
            (InitState::AwaitSetup(c), InitAction::Run(l))
        },
        (InitState::AwaitSetup(c), InitEvent::Status(code)) => {
            if code != 0 {
                (InitState::Done, InitAction::Fail(InitError::SetupFailed))
            } else {
                let h = copy_str(c.user.home.as_str());
                let (u, g) = (c.user.uid, c.user.gid);
                (InitState::AwaitHome(c), InitAction::PrepareHome(h, u, g))
            }
        },
        (InitState::AwaitHome(c), InitEvent::Finished) => {
            let l = CommandLine { program: copy_str("fc-cache"), args: Vec::new() };
            assert(l.args.deep_view() =~= Seq::<Seq<char>>::empty());
            (InitState::AwaitFontCache(c), InitAction::Run(l))
        },
        (InitState::AwaitFontCache(c), InitEvent::Status(code)) => {
            if code != 0 {
                (InitState::Done, InitAction::Fail(InitError::FontCacheFailed))
            } else {
                (InitState::AwaitSkel(c), InitAction::ListSkel)
            }
        },
        (InitState::AwaitFontCache(c), InitEvent::NotRun) => (InitState::AwaitSkel(c), InitAction::ListSkel),
        (InitState::AwaitSkel(c), InitEvent::Skel(dirs, files)) => {
            let d = skel_pairs(c.user.home.as_str(), &dirs);
            let f = skel_pairs(c.user.home.as_str(), &files);
            let (u, g) = (c.user.uid, c.user.gid);
            (InitState::AwaitCopy(c), InitAction::CopySkel(d, f, u, g))
        },
        (InitState::AwaitCopy(c), InitEvent::Finished) => {
            match &c.runtime_dir {
                None => (InitState::Done, InitAction::Fail(InitError::RuntimeUndefined)),
                Some(d) => {
                    let p = copy_str(d.as_str());
                    let (u, g) = (c.user.uid, c.user.gid);
                    (InitState::AwaitRuntime(c), InitAction::PrepareRuntime(p, u, g))
                },
            }
        },
        (InitState::AwaitRuntime(c), InitEvent::Finished) => (InitState::AwaitSudoCheck(c), InitAction::CheckSudo),
        (InitState::AwaitSudoCheck(c), InitEvent::Found(sudo)) => {
            if sudo {
                (InitState::AwaitSudoers(c), InitAction::AppendSudoers(sudoers_lines()))
            } else {
                let mut args: Vec<String> = Vec::new();
                push_string(&mut args, "-d");
                push_string(&mut args, "root");
                assert(args.deep_view() =~= passwd_args());
                (InitState::AwaitPasswd(c), InitAction::Run(CommandLine { program: copy_str("passwd"), args }))
            }
        },
        (InitState::AwaitSudoers(c), InitEvent::Finished) => (InitState::AwaitScripts(c, true), InitAction::ListScripts(copy_str(INIT_D_DIR))),
        (InitState::AwaitPasswd(c), InitEvent::Status(code)) => {
            if code != 0 {
                (InitState::Done, InitAction::Fail(InitError::PasswdFailed(code)))
            } else {
                (InitState::AwaitScripts(c, false), InitAction::ListScripts(copy_str(INIT_D_DIR)))
            }
        },
        (InitState::AwaitScripts(c, s), InitEvent::Scripts(entries)) => {
            match entries {
                None => {
                    let none: Vec<String> = Vec::new();
                    assert(none@ =~= Seq::<String>::empty());
                    script_next(c, s, none)
                },
                Some(es) => {
                    let files = script_list(&es);
                    let targets = exec_list(&es);
                    (InitState::AwaitExecBits(c, s, files), InitAction::MakeExecutable(targets))
                },
            }
        },
        (InitState::AwaitExecBits(c, s, files), InitEvent::Finished) => script_next(c, s, files),
        (InitState::AwaitScript(c, s, files), InitEvent::Status(code)) => {
            if code != 0 {
                let f = files[0].clone();
                assert(f == files@[0]);
                (InitState::Done, InitAction::Fail(InitError::ScriptFailed(f)))
            } else {
                let mut rest = files;
                rest.remove(0);
                script_next(c, s, rest)
            }
        },
        (InitState::AwaitFlag, InitEvent::Finished) => (InitState::Done, InitAction::Complete),
        _ => (InitState::Done, InitAction::Fail(InitError::Unexpected)),
    }
}

/// The flag that tells the init is done is written only after every script
/// succeeded: the step that writes it either follows a script that exited
/// with 0 and was the last, or follows the scripts being made executable or
/// listed when there are none to run.
pub proof fn law_flag_after_scripts(state: InitState, event: InitEvent, r: (InitState, InitAction))
    requires
        init_step_spec(state, event, r),
        state matches InitState::AwaitScript(_, _, v) ==> v.len() > 0,
        r.1 is WriteFlag,
    ensures
        match (state, event) {
            (InitState::AwaitScript(_, _, v), InitEvent::Status(code)) => code == 0 && v.len() == 1,
            (InitState::AwaitExecBits(_, _, v), InitEvent::Finished) => v.len() == 0,
            (InitState::AwaitScripts(_, _), InitEvent::Scripts(es)) => es is None,
            _ => false,
        },
{
}

/// A script that fails ends the init: no later script runs and the flag is
/// not written.
pub proof fn law_failed_script_stops(c: InitContext, s: bool, v: Vec<String>, code: u8, r: (InitState, InitAction))
    requires
        init_step_spec(InitState::AwaitScript(c, s, v), InitEvent::Status(code), r),
        code != 0,
    ensures
        r.0 is Done,
        r.1 == InitAction::Fail(InitError::ScriptFailed(v@[0])),
{
}

} // verus!
