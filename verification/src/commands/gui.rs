//! The graphical session shared with containers.
use vstd::prelude::*;
use crate::command_ext::{lines_of, split_lines, CommandLine};
use crate::host::{exists_in, path_exists, probe_agrees, PathKind};
use crate::text::{
    all_digits, concat, copy_str, dec_text, has_prefix, is_digit, lemma_dec_text, lemma_index_of_first, lemma_parse_dec_text, parse_u32, parse_u32_spec,
    push_str, push_string, starts_with, str_suffix, u64_to_string,
};

verus! {

/// Whether the graphical session runs, from the exit code of its status:
/// 0 when it runs, 4 when it does not (other codes are no answer).
pub fn is_gui_running(code: u8) -> (r: bool)
    requires
        code == 0 || code == 4,
    ensures
        r == (code == 0),
{
    // the exit code is 0 when the unit exists; units disappear after exit
    code == 0
}

/// The arguments of `systemd-run` that start the graphical session.
pub open spec fn gui_args() -> Seq<Seq<char>> {
    seq!["--user"@, "--unit=box-gui"@, "--"@, "weston"@, "--no-config"@, "--xwayland"@,
        "--backend=wayland"@, "--shell=desktop"@, "--flight-rec-scopes="@]
}

/// The command that starts the graphical session.
pub fn gui_command() -> (r: CommandLine)
    ensures
        r.program@ == "systemd-run"@,
        r.args.deep_view() == gui_args(),
{
    let mut args: Vec<String> = Vec::new();
    push_string(&mut args, "--user");
    push_string(&mut args, "--unit=box-gui");
    push_string(&mut args, "--");
    push_string(&mut args, "weston");
    push_string(&mut args, "--no-config");
    push_string(&mut args, "--xwayland");
    push_string(&mut args, "--backend=wayland");
    push_string(&mut args, "--shell=desktop");
    // do not print logs
    push_string(&mut args, "--flight-rec-scopes=");
    assert(args.deep_view() =~= gui_args());
    CommandLine { program: copy_str("systemd-run"), args }
}

/// The text of the file that records the socket indices of the session.
pub fn gui_sockets_text(xorg: u32, wayland: u32) -> (r: String)
    ensures
        r@ == dec_text(xorg as nat) + "\n"@ + dec_text(wayland as nat) + "\n"@,
{
    let mut r = u64_to_string(xorg as u64);
    push_str(&mut r, "\n");
    push_str(&mut r, u64_to_string(wayland as u64).as_str());
    push_str(&mut r, "\n");
    r
}

/// Start the graphical session if it is not already running: the command
/// to run, or none when it runs.
pub fn gui_run(running: bool) -> (r: Option<CommandLine>)
    ensures
        running ==> r is None,
        !running ==> (r matches Some(c) && c.program@ == "systemd-run"@ && c.args.deep_view() == gui_args()),
{
    // do not start it twice
    if running {
        None
    } else {
        Some(gui_command())
    }
}

/// The display number in `display` after `prefix` (`None` when the name does
/// not start with it or no number follows).
pub open spec fn display_number(display: Seq<char>, prefix: Seq<char>) -> Option<u32> {
    if has_prefix(display, prefix) {
        parse_u32_spec(display.subrange(prefix.len() as int, display.len() as int))
    } else {
        None
    }
}

fn display_index(display: &str, prefix: &str) -> (r: Option<u32>)
    ensures
        r == display_number(display@, prefix@),
{
    if starts_with(display, prefix) {
        let rest = str_suffix(display, prefix.unicode_len());
        parse_u32(rest.as_str())
    } else {
        None
    }
}

/// The X display the session starts counting from: the number of `DISPLAY`
/// (`:0` when unset); `None` when it is not of the form `:N`.
pub fn xorg_display_index(display: Option<&str>) -> (r: Option<u32>)
    ensures
        r == display_number(match display { Some(d) => d@, None => ":0"@ }, ":"@),
{
    match display {
        Some(d) => display_index(d, ":"),
        None => display_index(":0", ":"),
    }
}

/// The wayland display the session starts counting from: the number of
/// `WAYLAND_DISPLAY` (`wayland-0` when unset); `None` when it is not of the
/// form `wayland-N`.
pub fn wayland_display_index(display: Option<&str>) -> (r: Option<u32>)
    ensures
        r == display_number(match display { Some(d) => d@, None => "wayland-0"@ }, "wayland-"@),
{
    match display {
        Some(d) => display_index(d, "wayland-"),
        None => display_index("wayland-0", "wayland-"),
    }
}

/// The socket of display `i`: the X socket when `uid` is `None`, else the
/// wayland socket in the runtime directory of user `uid`.
pub open spec fn socket_path(uid: Option<u32>, i: nat) -> Seq<char> {
    match uid {
        None => "/tmp/.X11-unix/X"@ + dec_text(i),
        Some(u) => "/run/user/"@ + dec_text(u as nat) + "/wayland-"@ + dec_text(i),
    }
}

fn socket_path_of(uid: Option<u32>, i: u32) -> (r: String)
    ensures
        r@ == socket_path(uid, i as nat),
{
    match uid {
        None => concat("/tmp/.X11-unix/X", u64_to_string(i as u64).as_str()),
        Some(u) => {
            let mut r = concat("/run/user/", u64_to_string(u as u64).as_str());
            push_str(&mut r, "/wayland-");
            push_str(&mut r, u64_to_string(i as u64).as_str());
            r
        },
    }
}

/// `k` is the first display at or after `start` whose socket does not exist
/// in the file system `fs`.
pub open spec fn first_free(fs: spec_fn(Seq<char>) -> Option<Option<Seq<char>>>, uid: Option<u32>, start: nat, k: nat) -> bool {
    &&& start <= k
    &&& !exists_in(fs, socket_path(uid, k))
    &&& forall|j: nat| start <= j < k ==> exists_in(fs, #[trigger] socket_path(uid, j))
}

/// The first display at or after `start` whose socket does not exist; `None`
/// when every display up to the largest number is taken.
fn find_free_index<P: Fn(&str) -> PathKind>(uid: Option<u32>, start: u32, probe: &P) -> (r: Option<u32>)
    requires
        forall|x: &str| #[trigger] probe.requires((x,)),
    ensures
        forall|fs: spec_fn(Seq<char>) -> Option<Option<Seq<char>>>| #[trigger] probe_agrees(*probe, fs) ==> match r {
            Some(k) => first_free(fs, uid, start as nat, k as nat),
            None => forall|j: nat| start <= j <= u32::MAX ==> exists_in(fs, #[trigger] socket_path(uid, j)),
        },
{
    let mut i: u32 = start;
    loop
        invariant
            start <= i,
            forall|x: &str| #[trigger] probe.requires((x,)),
            forall|fs: spec_fn(Seq<char>) -> Option<Option<Seq<char>>>| #[trigger] probe_agrees(*probe, fs) ==>
                forall|j: nat| start <= j < i ==> exists_in(fs, #[trigger] socket_path(uid, j)),
        decreases u32::MAX - i,
    {
        let path = socket_path_of(uid, i);
        if !path_exists(probe, path.as_str()) {
            return Some(i);
        }
        if i == u32::MAX {
            return None;
        }
        i = i + 1;
    }
}

/// The first free X display at or after `start` (see `first_free`).
pub fn find_free_xorg_index<P: Fn(&str) -> PathKind>(start: u32, probe: &P) -> (r: Option<u32>)
    requires
        forall|x: &str| #[trigger] probe.requires((x,)),
    ensures
        forall|fs: spec_fn(Seq<char>) -> Option<Option<Seq<char>>>| #[trigger] probe_agrees(*probe, fs) ==> match r {
            Some(k) => first_free(fs, None, start as nat, k as nat),
            None => forall|j: nat| start <= j <= u32::MAX ==> exists_in(fs, #[trigger] socket_path(None, j)),
        },
{
    find_free_index(None, start, probe)
}

/// The first free wayland display of user `uid` at or after `start` (see
/// `first_free`).
pub fn find_free_wayland_index<P: Fn(&str) -> PathKind>(uid: u32, start: u32, probe: &P) -> (r: Option<u32>)
    requires
        forall|x: &str| #[trigger] probe.requires((x,)),
    ensures
        forall|fs: spec_fn(Seq<char>) -> Option<Option<Seq<char>>>| #[trigger] probe_agrees(*probe, fs) ==> match r {
            Some(k) => first_free(fs, Some(uid), start as nat, k as nat),
            None => forall|j: nat| start <= j <= u32::MAX ==> exists_in(fs, #[trigger] socket_path(Some(uid), j)),
        },
{
    find_free_index(Some(uid), start, probe)
}

/// The socket indices recorded in the file of the session (see
/// `gui_sockets_text`): the numbers on its first two lines.
pub open spec fn gui_sockets_of(text: Seq<char>) -> Option<(u32, u32)> {
    let ls = lines_of(text);
    if ls.len() >= 2 && parse_u32_spec(ls[0]) is Some && parse_u32_spec(ls[1]) is Some {
        Some((parse_u32_spec(ls[0])->0, parse_u32_spec(ls[1])->0))
    } else {
        None
    }
}

/// Reads the socket indices from the text of the file of the session;
/// `None` when its first two lines are not numbers.
pub fn get_gui_sockets(text: &str) -> (r: Option<(u32, u32)>)
    ensures
        r == gui_sockets_of(text@),
{
    let lines = split_lines(text);
    if lines.len() < 2 {
        return None;
    }
    assert(lines.deep_view()[0] == lines@[0]@);
    assert(lines.deep_view()[1] == lines@[1]@);
    let x = match parse_u32(lines[0].as_str()) {
        Some(v) => v,
        None => return None,
    };
    let w = match parse_u32(lines[1].as_str()) {
        Some(v) => v,
        None => return None,
    };
    Some((x, w))
}

/// The first line of `a` followed by a line break and more text `b` is `a`
/// when `a` is a number.
proof fn lemma_number_line(a: Seq<char>, b: Seq<char>)
    requires
        all_digits(a),
    ensures
        lines_of(a + "\n"@ + b) == seq![a] + lines_of(b),
{
    reveal_strlit("\n");
    let s = a + "\n"@ + b;
    assert(s[a.len() as int] == '\n');
    assert forall|j: int| 0 <= j < a.len() implies s[j] != '\n' by {
        assert(s[j] == a[j]);
        assert(is_digit(a[j]));
    }
    lemma_index_of_first(s, '\n', a.len() as int);
    assert(s.subrange(0, a.len() as int) =~= a);
    assert(s.subrange(a.len() as int + 1, s.len() as int) =~= b);
    if a.len() > 0 {
        assert(is_digit(a.last()));
    }
}

/// The socket indices written to the file of the session (see
/// `gui_sockets_text`) are read back from it (see `get_gui_sockets`).
pub proof fn law_gui_sockets_read_back(xorg: u32, wayland: u32)
    ensures
        gui_sockets_of(dec_text(xorg as nat) + "\n"@ + dec_text(wayland as nat) + "\n"@) == Some((xorg, wayland)),
{
    let a = dec_text(xorg as nat);
    let b = dec_text(wayland as nat);
    lemma_dec_text(xorg as nat);
    lemma_dec_text(wayland as nat);
    lemma_parse_dec_text(xorg);
    lemma_parse_dec_text(wayland);
    reveal_strlit("\n");
    lemma_number_line(b, Seq::empty());
    assert(b + "\n"@ + Seq::<char>::empty() =~= b + "\n"@);
    lemma_number_line(a, b + "\n"@);
    assert(a + "\n"@ + (b + "\n"@) =~= a + "\n"@ + b + "\n"@);
    assert(lines_of(Seq::<char>::empty()) =~= Seq::<Seq<char>>::empty());
    let ls = lines_of(a + "\n"@ + b + "\n"@);
    assert(ls =~= seq![a, b]);
}

} // verus!
