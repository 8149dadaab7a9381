//! The decisions of the init that runs inside a container: the user, its
//! shell and home, the skeleton files, and the order of the init scripts.
use vstd::prelude::*;
use vstd::relations::{sorted_by, total_ordering};
use crate::command_ext::CommandLine;
use crate::consts::{ARCAM_DIR, INIT_D_DIR};
use crate::paths::{join_path, path_join};
use crate::text::{chars_of, concat, copy_str, parse_u32, parse_u32_spec, push_string};

verus! {

broadcast use vstd::seq_lib::group_to_multiset_ensures;

/// The user the container is set up for.
#[derive(Debug, Clone)]
pub struct InitUser {
    /// Name of the user.
    pub user: String,
    /// User id, as given.
    pub uid_text: String,
    /// User id.
    pub uid: u32,
    /// Primary group id.
    pub gid: u32,
    /// Home directory.
    pub home: String,
}

/// The user from the variables `HOST_USER`, `HOST_USER_UID` and
/// `HOST_USER_GID`: each must be defined (the first missing one is the error,
/// its message), the ids are numbers, and the home is under `/home`.
pub fn init_user(user: Option<&str>, uid: Option<&str>, gid: Option<&str>) -> (r: Result<InitUser, String>)
    requires
        (user is Some && uid is Some && gid is Some) ==> parse_u32_spec(uid->0@) is Some && parse_u32_spec(gid->0@) is Some,
    ensures
        user is None ==> (r matches Err(m) && m@ == "HOST_USER is undefined"@),
        user is Some && uid is None ==> (r matches Err(m) && m@ == "HOST_USER_UID is undefined"@),
        user is Some && uid is Some && gid is None ==> (r matches Err(m) && m@ == "HOST_USER_GID is undefined"@),
        (user is Some && uid is Some && gid is Some) ==> (r matches Ok(u)
            && u.user@ == user->0@ && u.uid_text@ == uid->0@
            && Some(u.uid) == parse_u32_spec(uid->0@) && Some(u.gid) == parse_u32_spec(gid->0@)
            && u.home@ == "/home/"@ + user->0@),
{
    let user = match user {
        Some(u) => u,
        None => return Err(copy_str("HOST_USER is undefined")),
    };
    let uid = match uid {
        Some(u) => u,
        None => return Err(copy_str("HOST_USER_UID is undefined")),
    };
    let gid = match gid {
        Some(g) => g,
        None => return Err(copy_str("HOST_USER_GID is undefined")),
    };
    let uid_n = match parse_u32(uid) {
        Some(n) => n,
        None => return Err(String::new()),
    };
    let gid_n = match parse_u32(gid) {
        Some(n) => n,
        None => return Err(String::new()),
    };
    Ok(InitUser {
        user: copy_str(user),
        uid_text: copy_str(uid),
        uid: uid_n,
        gid: gid_n,
        home: concat("/home/", user),
    })
}

/// The shell of the user: bash when it is installed, else sh.
pub fn default_shell(bash_exists: bool) -> (r: &'static str)
    ensures
        r@ == if bash_exists { "/bin/bash"@ } else { "/bin/sh"@ },
{
    if bash_exists {
        "/bin/bash"
    } else {
        // use sh as fallback
        "/bin/sh"
    }
}

/// The command that sets the user up: create it when missing, else give it
/// its home and shell.
pub open spec fn user_setup_args(u: InitUser, shell: Seq<char>, found: bool) -> Seq<Seq<char>> {
    if !found {
        seq!["--shell"@, shell, "--home-dir"@, u.home@, "--uid"@, u.uid_text@, "--user-group"@, "--no-create-home"@, u.user@]
    } else {
        seq!["--home"@, u.home@, "--shell"@, shell, u.user@]
    }
}

/// The command that sets the user up (see `user_setup_args`).
pub fn user_setup_command(u: &InitUser, shell: &str, found: bool) -> (r: CommandLine)
    ensures
        r.program@ == if found { "usermod"@ } else { "useradd"@ },
        r.args.deep_view() == user_setup_args(*u, shell@, found),
{
    let mut args: Vec<String> = Vec::new();
    if !found {
        push_string(&mut args, "--shell");
        push_string(&mut args, shell);
        push_string(&mut args, "--home-dir");
        push_string(&mut args, u.home.as_str());
        push_string(&mut args, "--uid");
        push_string(&mut args, u.uid_text.as_str());
        push_string(&mut args, "--user-group");
        push_string(&mut args, "--no-create-home");
        push_string(&mut args, u.user.as_str());
        assert(args.deep_view() =~= user_setup_args(*u, shell@, found));
        CommandLine { program: copy_str("useradd"), args }
    } else {
        push_string(&mut args, "--home");
        push_string(&mut args, u.home.as_str());
        push_string(&mut args, "--shell");
        push_string(&mut args, shell);
        push_string(&mut args, u.user.as_str());
        assert(args.deep_view() =~= user_setup_args(*u, shell@, found));
        CommandLine { program: copy_str("usermod"), args }
    }
}

/// Where a file of the skeleton (path relative to it) is copied from and to.
pub fn skel_copy(home: &str, rel: &str) -> (r: (String, String))
    ensures
        r.0@ == path_join("/etc/skel"@, rel@),
        r.1@ == path_join(home@, rel@),
{
    (join_path("/etc/skel", rel), join_path(home, rel))
}

/// Lines added to the sudoers file: no host name lookup, and everything
/// allowed to everyone without a password.
pub fn sudoers_lines() -> (r: String)
    ensures
        r@ == "Defaults !fqdn\nALL ALL = (ALL) NOPASSWD: ALL\n"@,
{
    copy_str("Defaults !fqdn\nALL ALL = (ALL) NOPASSWD: ALL\n")
}

/// The command that runs an init script as the user: through sudo when it
/// is installed, else through su.
pub fn script_command(has_sudo: bool, user: &str, file: &str) -> (r: CommandLine)
    ensures
        has_sudo ==> r.program@ == "sudo"@ && r.args.deep_view() == seq!["-u"@, user@, file@],
        !has_sudo ==> r.program@ == "su"@ && r.args.deep_view() == seq![user@, "-c"@, file@],
{
    let mut args: Vec<String> = Vec::new();
    if has_sudo {
        push_string(&mut args, "-u");
        push_string(&mut args, user);
        push_string(&mut args, file);
        assert(args.deep_view() =~= seq!["-u"@, user@, file@]);
        CommandLine { program: copy_str("sudo"), args }
    } else {
        push_string(&mut args, user);
        push_string(&mut args, "-c");
        push_string(&mut args, file);
        assert(args.deep_view() =~= seq![user@, "-c"@, file@]);
        CommandLine { program: copy_str("su"), args }
    }
}

/// Whether a file of this mode is executable by nobody.
pub fn needs_exec_bits(mode: u32) -> (r: bool)
    ensures
        r == (mode & 0o111u32 == 0),
{
    mode & 0o111 == 0
}

/// The mode with execution allowed to everyone (`chmod +x`).
pub fn with_exec_bits(mode: u32) -> (r: u32)
    ensures
        r == mode | 0o111u32,
{
    mode | 0o111
}

/// The directories the init creates before all else.
pub fn init_dirs() -> (r: Vec<String>)
    ensures
        r.deep_view() == seq![ARCAM_DIR@, INIT_D_DIR@, "/tmp/.X11-unix"@],
{
    let mut r: Vec<String> = Vec::new();
    push_string(&mut r, ARCAM_DIR);
    push_string(&mut r, INIT_D_DIR);
    push_string(&mut r, "/tmp/.X11-unix");
    assert(r.deep_view() =~= seq![ARCAM_DIR@, INIT_D_DIR@, "/tmp/.X11-unix"@]);
    r
}

/// The wrapper that runs a command as root, through sudo when it is
/// installed, else through su.
pub fn asroot_script() -> (r: String)
    ensures
        r@ == "#!/bin/sh\nset -e\n\nif command -v sudo >/dev/null; then\n    sudo -u root -g root -- \"$@\"\nelse\n    su -c \"$*\" -g root root\nfi\n"@,
{
    copy_str("#!/bin/sh\nset -e\n\nif command -v sudo >/dev/null; then\n    sudo -u root -g root -- \"$@\"\nelse\n    su -c \"$*\" -g root root\nfi\n")
}

/// `a` comes before `b` or equals it, character by character (by code
/// point, which is the order of their UTF-8 bytes).
pub open spec fn lex_le(a: Seq<char>, b: Seq<char>) -> bool
    decreases a.len(),
{
    if a.len() == 0 {
        true
    } else if b.len() == 0 {
        false
    } else if a[0] != b[0] {
        (a[0] as u32) < (b[0] as u32)
    } else {
        lex_le(a.drop_first(), b.drop_first())
    }
}

/// The order of names.
pub open spec fn name_order() -> spec_fn(Seq<char>, Seq<char>) -> bool {
    |a: Seq<char>, b: Seq<char>| lex_le(a, b)
}

proof fn lemma_lex_reflexive(a: Seq<char>)
    ensures
        lex_le(a, a),
    decreases a.len(),
{
    if a.len() > 0 {
        lemma_lex_reflexive(a.drop_first());
    }
}

proof fn lemma_lex_antisymmetric(a: Seq<char>, b: Seq<char>)
    requires
        lex_le(a, b),
        lex_le(b, a),
    ensures
        a == b,
    decreases a.len(),
{
    if a.len() > 0 && b.len() > 0 {
        lemma_lex_antisymmetric(a.drop_first(), b.drop_first());
        assert(a =~= seq![a[0]] + a.drop_first());
        assert(b =~= seq![b[0]] + b.drop_first());
    } else {
        assert(a =~= b);
    }
}

proof fn lemma_lex_transitive(a: Seq<char>, b: Seq<char>, c: Seq<char>)
    requires
        lex_le(a, b),
        lex_le(b, c),
    ensures
        lex_le(a, c),
    decreases a.len(),
{
    if a.len() > 0 && b.len() > 0 && c.len() > 0 && a[0] == b[0] && b[0] == c[0] {
        lemma_lex_transitive(a.drop_first(), b.drop_first(), c.drop_first());
    }
}

proof fn lemma_lex_total(a: Seq<char>, b: Seq<char>)
    ensures
        lex_le(a, b) || lex_le(b, a),
    decreases a.len(),
{
    if a.len() > 0 && b.len() > 0 {
        if a[0] == b[0] {
            lemma_lex_total(a.drop_first(), b.drop_first());
        } else {
            // distinct characters have distinct codes
            vstd::utf8::char_u32_cast(a[0], a[0] as u32);
            vstd::utf8::char_u32_cast(b[0], b[0] as u32);
        }
    }
}

/// The order of names is a total order.
pub proof fn lemma_name_order_total()
    ensures
        total_ordering(name_order()),
{
    assert forall|a: Seq<char>| #[trigger] name_order()(a, a) by {
        lemma_lex_reflexive(a);
    }
    assert forall|a: Seq<char>, b: Seq<char>| #[trigger] name_order()(a, b) && #[trigger] name_order()(b, a) implies a == b by {
        lemma_lex_antisymmetric(a, b);
    }
    assert forall|a: Seq<char>, b: Seq<char>, c: Seq<char>| #[trigger] name_order()(a, b) && #[trigger] name_order()(b, c) implies name_order()(a, c) by {
        lemma_lex_transitive(a, b, c);
    }
    assert forall|a: Seq<char>, b: Seq<char>| #[trigger] name_order()(a, b) || #[trigger] name_order()(b, a) by {
        lemma_lex_total(a, b);
    }
}

/// Whether `a` comes before `b` or equals it (see `lex_le`).
pub fn name_le(a: &str, b: &str) -> (r: bool)
    ensures
        r == lex_le(a@, b@),
{
    let x = chars_of(a);
    let y = chars_of(b);
    let mut i: usize = 0;
    assert(a@.skip(0) =~= a@);
    assert(b@.skip(0) =~= b@);
    while i < x.len() && i < y.len() && x[i] == y[i]
        invariant
            i <= x.len(),
            i <= y.len(),
            x@ == a@,
            y@ == b@,
            lex_le(a@, b@) == lex_le(a@.skip(i as int), b@.skip(i as int)),
        decreases x.len() - i,
    {
        assert(a@.skip(i as int).drop_first() =~= a@.skip(i + 1));
        assert(b@.skip(i as int).drop_first() =~= b@.skip(i + 1));
        i = i + 1;
    }
    if i == x.len() {
        true
    } else if i == y.len() {
        false
    } else {
        assert(a@.skip(i as int)[0] == x@[i as int]);
        assert(b@.skip(i as int)[0] == y@[i as int]);
        let cx = x[i];
        let cy = y[i];
        (cx as u32) < (cy as u32)
    }
}

/// The names in order (see `lex_le`): the order in which the init scripts run.
pub fn script_order(names: Vec<String>) -> (r: Vec<String>)
    ensures
        r.deep_view() == names.deep_view().sort_by(name_order()),
{
    let ghost nv = names.deep_view();
    proof {
        lemma_name_order_total();
    }
    let mut sorted: Vec<String> = Vec::new();
    let mut i: usize = 0;
    assert(nv.take(0) =~= Seq::<Seq<char>>::empty());
    while i < names.len()
        invariant
            i <= names.len(),
            nv == names.deep_view(),
            total_ordering(name_order()),
            sorted_by(sorted.deep_view(), name_order()),
            sorted.deep_view().to_multiset() == nv.take(i as int).to_multiset(),
        decreases names.len() - i,
    {
        let x = names[i].as_str();
        let ghost sv = sorted.deep_view();
        // the first place where a later name stands
        let mut k: usize = 0;
        while k < sorted.len() && name_le(sorted[k].as_str(), x)
            invariant
                k <= sorted.len(),
                sv == sorted.deep_view(),
                forall|j: int| 0 <= j < k ==> lex_le(#[trigger] sv[j], x@),
            decreases sorted.len() - k,
        {
            k = k + 1;
        }
        sorted.insert(k, copy_str(x));
        proof {
            let nsv = sorted.deep_view();
            assert(nsv =~= sv.insert(k as int, x@));
            assert forall|a: int, b: int| 0 <= a < b < nsv.len() implies #[trigger] name_order()(nsv[a], nsv[b]) by {
                if b < k {
                } else if a < k && b == k {
                } else if a < k {
                    assert(nsv[b] == sv[b - 1]);
                    assert(name_order()(sv[a], sv[b - 1]));
                } else if a == k {
                    // x comes before the name that stood at k, which comes
                    // before every later one
                    assert(!lex_le(sv[k as int], x@));
                    lemma_lex_total(sv[k as int], x@);
                    if b - 1 > k {
                        assert(name_order()(sv[k as int], sv[b - 1]));
                        lemma_lex_transitive(x@, sv[k as int], sv[b - 1]);
                    }
                } else {
                    assert(name_order()(sv[a - 1], sv[b - 1]));
                }
            }
            assert(nv.take(i + 1) =~= nv.take(i as int).push(nv[i as int]));
        }
        i = i + 1;
    }
    proof {
        assert(nv.take(nv.len() as int) =~= nv);
        nv.lemma_sort_by_ensures(name_order());
        vstd::seq_lib::lemma_sorted_unique(sorted.deep_view(), nv.sort_by(name_order()), name_order());
    }
    sorted
}

} // verus!
