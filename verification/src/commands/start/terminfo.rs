//! The terminfo directories of the host, mounted so that the container needs
//! no terminfo of its own.
use vstd::prelude::*;
use crate::command_ext::{lines_of, lossy_text, split_lines, utf8_lossy, CommandOutput};
use crate::commands::start::{StartError, StartFault};
use crate::host::{exists_in, is_ascii_alnum, path_exists, probe_agrees, random_alnum, PathKind};
use crate::text::{copy_str, join, join_strings, push_owned, push_str, push_string, split_char, split_on, str_eq};

verus! {

/// The standard terminfo directories.
pub open spec fn standard_terminfo() -> Seq<Seq<char>> {
    seq!["/usr/share/terminfo"@, "/usr/lib/terminfo"@, "/etc/terminfo"@]
}

fn standard_terminfo_exec() -> (r: Vec<String>)
    ensures
        r.deep_view() == standard_terminfo(),
{
    let mut r: Vec<String> = Vec::new();
    push_string(&mut r, "/usr/share/terminfo");
    push_string(&mut r, "/usr/lib/terminfo");
    push_string(&mut r, "/etc/terminfo");
    assert(r.deep_view() =~= standard_terminfo());
    r
}

/// `acc` with each candidate that exists and is not yet listed added.
pub open spec fn add_new(acc: Seq<Seq<char>>, cands: Seq<Seq<char>>, fs: spec_fn(Seq<char>) -> Option<Option<Seq<char>>>) -> Seq<Seq<char>>
    decreases cands.len(),
{
    if cands.len() == 0 {
        acc
    } else {
        let a = add_new(acc, cands.drop_last(), fs);
        let c = cands.last();
        if exists_in(fs, c) && !a.contains(c) {
            a.push(c)
        } else {
            a
        }
    }
}

/// The candidates that exist, in order, each as often as it is listed.
pub open spec fn existing(cands: Seq<Seq<char>>, fs: spec_fn(Seq<char>) -> Option<Option<Seq<char>>>) -> Seq<Seq<char>>
    decreases cands.len(),
{
    if cands.len() == 0 {
        Seq::empty()
    } else {
        let a = existing(cands.drop_last(), fs);
        if exists_in(fs, cands.last()) {
            a.push(cands.last())
        } else {
            a
        }
    }
}

/// The terminfo directories found: the lines that the terminfo tool listed
/// (when it ran and succeeded) that exist, as listed; then those of
/// `TERMINFO_DIRS` and then the standard directories that exist, each only
/// when not found already.
pub open spec fn terminfo_dirs(listing: Option<Seq<char>>, env_dirs: Option<Seq<char>>, fs: spec_fn(Seq<char>) -> Option<Option<Seq<char>>>) -> Seq<Seq<char>> {
    let d1 = match listing {
        Some(t) => existing(lines_of(t), fs),
        None => Seq::empty(),
    };
    let d2 = match env_dirs {
        Some(e) => add_new(d1, split_on(e, ':'), fs),
        None => d1,
    };
    add_new(d2, standard_terminfo(), fs)
}

/// Where a terminfo directory is mounted in the container.
pub open spec fn mountpoint(name: Seq<char>) -> Seq<char> {
    "/host/terminfo/"@ + name
}

/// The arguments that mount the directories `dirs` at the mount points named
/// `names`, and the `TERMINFO_DIRS` of the container: the mount points, then
/// the standard directories, joined by `:`.
pub open spec fn terminfo_args(dirs: Seq<Seq<char>>, names: Seq<Seq<char>>) -> Seq<Seq<char>> {
    Seq::new(dirs.len(), |i: int| "--volume="@ + dirs[i] + ":"@ + mountpoint(names[i]) + ":ro"@).push(
        "--env=TERMINFO_DIRS="@ + join(names.take(dirs.len() as int).map_values(|n: Seq<char>| mountpoint(n)) + standard_terminfo(), ":"@),
    )
}

/// Names fit for mount points: `n` of them, each of four ASCII letters or digits.
pub open spec fn mount_names(names: Seq<Seq<char>>, n: nat) -> bool {
    &&& names.len() == n
    &&& forall|i: int| 0 <= i < n ==> (#[trigger] names[i]).len() == 4 && (forall|k: int| 0 <= k < 4 ==> is_ascii_alnum(names[i][k]))
}

/// `args` mount the terminfo directories `dirs` under some names fit for
/// mount points.
pub open spec fn terminfo_mounted(dirs: Seq<Seq<char>>, args: Seq<Seq<char>>) -> bool {
    exists|names: Seq<Seq<char>>| mount_names(names, dirs.len()) && args == #[trigger] terminfo_args(dirs, names)
}

/// The text that the terminfo tool listed, when it ran and succeeded.
pub open spec fn listing_text(o: Option<CommandOutput>) -> Option<Seq<char>> {
    match o {
        Some(out) => if out.status.code == Some(0i32) {
            Some(utf8_lossy(out.stdout@))
        } else {
            None
        },
        None => None,
    }
}

/// The view of an optional string slice.
pub open spec fn opt_str(o: Option<&str>) -> Option<Seq<char>> {
    match o {
        Some(s) => Some(s@),
        None => None,
    }
}

/// The arguments that mount the terminfo directories `dirs` at the mount
/// points named `names` (one name per directory).
pub fn terminfo_mount_args(dirs: &Vec<String>, names: &Vec<String>) -> (r: Vec<String>)
    requires
        names.len() == dirs.len(),
    ensures
        r.deep_view() == terminfo_args(dirs.deep_view(), names.deep_view()),
{
    let ghost dv = dirs.deep_view();
    let ghost nv = names.deep_view();
    let mut r: Vec<String> = Vec::new();
    let mut mounts: Vec<String> = Vec::new();
    let mut i: usize = 0;
    while i < dirs.len()
        invariant
            i <= dirs.len(),
            names.len() == dirs.len(),
            dv == dirs.deep_view(),
            nv == names.deep_view(),
            r.deep_view() == Seq::new(i as nat, |k: int| "--volume="@ + dv[k] + ":"@ + mountpoint(nv[k]) + ":ro"@),
            mounts.deep_view() == nv.take(i as int).map_values(|n: Seq<char>| mountpoint(n)),
        decreases dirs.len() - i,
    {
        let mut m = copy_str("/host/terminfo/");
        push_str(&mut m, names[i].as_str());
        let mut a = copy_str("--volume=");
        push_str(&mut a, dirs[i].as_str());
        push_str(&mut a, ":");
        push_str(&mut a, m.as_str());
        push_str(&mut a, ":ro");
        push_owned(&mut r, a);
        push_owned(&mut mounts, m);
        i = i + 1;
        assert(r.deep_view() =~= Seq::new(i as nat, |k: int| "--volume="@ + dv[k] + ":"@ + mountpoint(nv[k]) + ":ro"@));
        assert(mounts.deep_view() =~= nv.take(i as int).map_values(|n: Seq<char>| mountpoint(n)));
    }
    let standard = standard_terminfo_exec();
    let ghost before = mounts.deep_view();
    let mut j: usize = 0;
    while j < standard.len()
        invariant
            j <= standard.len(),
            standard.deep_view() == standard_terminfo(),
            mounts.deep_view() == before + standard_terminfo().take(j as int),
        decreases standard.len() - j,
    {
        crate::text::push_string(&mut mounts, standard[j].as_str());
        j = j + 1;
        assert(mounts.deep_view() =~= before + standard_terminfo().take(j as int));
    }
    assert(standard_terminfo().take(3) =~= standard_terminfo());
    assert(nv.take(dirs.len() as int) =~= nv.take(i as int));
    let env = join_strings(&mounts, ":");
    let mut e = copy_str("--env=TERMINFO_DIRS=");
    push_str(&mut e, env.as_str());
    push_owned(&mut r, e);
    assert(r.deep_view() =~= terminfo_args(dv, nv));
    r
}

/// Whether `v` lists `s`.
fn contains_str(v: &Vec<String>, s: &str) -> (r: bool)
    ensures
        r == v.deep_view().contains(s@),
{
    let mut i: usize = 0;
    while i < v.len()
        invariant
            i <= v.len(),
            forall|k: int| 0 <= k < i ==> v.deep_view()[k] != s@,
        decreases v.len() - i,
    {
        if str_eq(v[i].as_str(), s) {
            assert(v.deep_view()[i as int] == s@);
            return true;
        }
        i = i + 1;
    }
    false
}

/// Finds the terminfo directories of the host (see `terminfo_dirs`); `listing`
/// is the output of the terminfo tool listing its directories (`None` when it could not run), `env_dirs`
/// the value of `TERMINFO_DIRS`.
pub fn terminfo_dirs_found<P: Fn(&str) -> PathKind>(listing: Option<&CommandOutput>, env_dirs: Option<&str>, probe: &P) -> (r: Vec<String>)
    requires
        forall|x: &str| #[trigger] probe.requires((x,)),
    ensures
        forall|fs: spec_fn(Seq<char>) -> Option<Option<Seq<char>>>| probe_agrees(*probe, fs) ==>
            r.deep_view() == terminfo_dirs(listing_text(match listing { Some(o) => Some(*o), None => None }), opt_str(env_dirs), fs),
{
    let ghost ic = listing_text(match listing { Some(o) => Some(*o), None => None });
    let mut dirs: Vec<String> = Vec::new();
    // directories that the terminfo tool knows of
    let lines: Vec<String> = match listing {
        Some(out) => if out.status.code == Some(0i32) {
            let text = lossy_text(&out.stdout);
            split_lines(text.as_str())
        } else {
            Vec::new()
        },
        None => Vec::new(),
    };
    let ghost lv = lines.deep_view();
    assert(lv == match ic { Some(t) => lines_of(t), None => Seq::<Seq<char>>::empty() });
    assert(lv.take(0) =~= Seq::<Seq<char>>::empty());
    let mut i: usize = 0;
    while i < lines.len()
        invariant
            i <= lines.len(),
            lv == lines.deep_view(),
            forall|x: &str| #[trigger] probe.requires((x,)),
            forall|fs: spec_fn(Seq<char>) -> Option<Option<Seq<char>>>| probe_agrees(*probe, fs) ==>
                dirs.deep_view() == existing(lv.take(i as int), fs),
        decreases lines.len() - i,
    {
        assert(lv.take(i + 1).drop_last() =~= lv.take(i as int));
        assert(lv.take(i + 1).last() == lines[i as int]@);
        // every existing directory that the tool lists
        if path_exists(probe, lines[i].as_str()) {
            crate::text::push_string(&mut dirs, lines[i].as_str());
        }
        i = i + 1;
    }
    assert(lv.take(lv.len() as int) =~= lv);
    assert(forall|fs: spec_fn(Seq<char>) -> Option<Option<Seq<char>>>| probe_agrees(*probe, fs) ==>
        dirs.deep_view() == (match ic { Some(t) => existing(lines_of(t), fs), None => Seq::<Seq<char>>::empty() }));
    let ghost d1 = dirs.deep_view();
    // then TERMINFO_DIRS, without duplicates
    match env_dirs {
        Some(e) => {
            let parts = split_char(e, ':');
            let ghost pv = parts.deep_view();
            assert(pv.take(0) =~= Seq::<Seq<char>>::empty());
            let mut j: usize = 0;
            while j < parts.len()
                invariant
                    j <= parts.len(),
                    pv == parts.deep_view(),
                    forall|x: &str| #[trigger] probe.requires((x,)),
                    forall|fs: spec_fn(Seq<char>) -> Option<Option<Seq<char>>>| probe_agrees(*probe, fs) ==>
                        dirs.deep_view() == add_new(d1, pv.take(j as int), fs),
                decreases parts.len() - j,
            {
                assert(pv.take(j + 1).drop_last() =~= pv.take(j as int));
                assert(pv.take(j + 1).last() == parts[j as int]@);
                if path_exists(probe, parts[j].as_str()) && !contains_str(&dirs, parts[j].as_str()) {
                    crate::text::push_string(&mut dirs, parts[j].as_str());
                }
                j = j + 1;
            }
            assert(pv.take(pv.len() as int) =~= pv);
        },
        None => {},
    }
    let ghost d2 = dirs.deep_view();
    // the standard directories, each once
    let standard = standard_terminfo_exec();
    let ghost sv = standard.deep_view();
    assert(sv.take(0) =~= Seq::<Seq<char>>::empty());
    let mut k: usize = 0;
    while k < standard.len()
        invariant
            k <= standard.len(),
            sv == standard.deep_view(),
            sv == standard_terminfo(),
            forall|x: &str| #[trigger] probe.requires((x,)),
            forall|fs: spec_fn(Seq<char>) -> Option<Option<Seq<char>>>| probe_agrees(*probe, fs) ==>
                dirs.deep_view() == add_new(d2, sv.take(k as int), fs),
        decreases standard.len() - k,
    {
        assert(sv.take(k + 1).drop_last() =~= sv.take(k as int));
        assert(sv.take(k + 1).last() == standard[k as int]@);
        if path_exists(probe, standard[k].as_str()) && !contains_str(&dirs, standard[k].as_str()) {
            crate::text::push_string(&mut dirs, standard[k].as_str());
        }
        k = k + 1;
    }
    assert(sv.take(sv.len() as int) =~= sv);
    dirs
}

/// Finds the terminfo directories of the host and gives the arguments that
/// mount each at `/host/terminfo/` under a random name of four letters or
/// digits, with the `TERMINFO_DIRS` of the container; fails when none was
/// found.
pub fn find_terminfo<P: Fn(&str) -> PathKind>(listing: Option<&CommandOutput>, env_dirs: Option<&str>, probe: &P) -> (r: Result<Vec<String>, StartError>)
    requires
        forall|x: &str| #[trigger] probe.requires((x,)),
    ensures
        forall|fs: spec_fn(Seq<char>) -> Option<Option<Seq<char>>>| probe_agrees(*probe, fs) ==> {
            let dirs = terminfo_dirs(listing_text(match listing { Some(o) => Some(*o), None => None }), opt_str(env_dirs), fs);
            &&& dirs.len() == 0 ==> (r matches Err(e) && e@ == StartFault::NoTerminfo)
            &&& dirs.len() > 0 ==> (r matches Ok(v) && terminfo_mounted(dirs, v.deep_view()))
        },
{
    let dirs = terminfo_dirs_found(listing, env_dirs, probe);
    if dirs.len() == 0 {
        return Err(StartError::NoTerminfo);
    }
    let mut names: Vec<String> = Vec::new();
    let mut i: usize = 0;
    while i < dirs.len()
        invariant
            i <= dirs.len(),
            mount_names(names.deep_view(), i as nat),
        decreases dirs.len() - i,
    {
        // random name to keep the paths short
        let n = random_alnum(4);
        push_owned(&mut names, n);
        i = i + 1;
    }
    let r = terminfo_mount_args(&dirs, &names);
    proof {
        let dv = dirs.deep_view();
        let nv = names.deep_view();
        assert(mount_names(nv, dv.len()) && r.deep_view() == terminfo_args(dv, nv));
        assert(terminfo_mounted(dv, r.deep_view()));
    }
    Ok(r)
}

} // verus!
