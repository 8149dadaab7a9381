//! What a new container gets from the host: capabilities, additional
//! mounts, sockets and devices.
use vstd::prelude::*;
use crate::cli::CmdStartArgs;
use crate::commands::start::{appended, StartError, StartFault};
use crate::consts::ENV_WAYLAND_DISPLAY;
use crate::context::Context;
use crate::host::{env_get, exists_in, path_exists, probe_agrees, PathKind};
use crate::paths::{file_name, join_path, last_component, path_join};
use crate::text::{concat, concat3, concat4, concat5, chars_of, copy_str, dec_text, has_prefix, push_owned, push_str, str_eq, str_suffix, starts_with, string_of_range, u64_to_string};
use crate::vars::getter_agrees;

verus! {

/// A capability as written on the command line: its name, and whether it is
/// added (`!name` drops it).
pub open spec fn cap_entry(c: Seq<char>) -> (Seq<char>, bool) {
    if c.len() > 0 && c[0] == '!' {
        (c.subrange(1, c.len() as int), false)
    } else {
        (c, true)
    }
}

/// Index of the entry for capability `name` at or after `i`, or the length.
pub open spec fn find_cap(t: Seq<(Seq<char>, bool)>, name: Seq<char>, i: int) -> int
    decreases t.len() - i,
{
    if i < 0 || i >= t.len() {
        t.len() as int
    } else if t[i].0 == name {
        i
    } else {
        find_cap(t, name, i + 1)
    }
}

/// Each capability mentioned, once, in the order of its first mention, with
/// the choice of its last mention.
pub open spec fn caps_table(list: Seq<Seq<char>>) -> Seq<(Seq<char>, bool)>
    decreases list.len(),
{
    if list.len() == 0 {
        Seq::empty()
    } else {
        let t = caps_table(list.drop_last());
        let e = cap_entry(list.last());
        let k = find_cap(t, e.0, 0);
        if k < t.len() {
            t.update(k, e)
        } else {
            t.push(e)
        }
    }
}

/// The engine argument for one capability.
pub open spec fn cap_arg(e: (Seq<char>, bool)) -> Seq<char> {
    if e.1 {
        "--cap-add="@ + e.0
    } else {
        "--cap-drop="@ + e.0
    }
}

/// The engine arguments for the capabilities of the command line.
pub open spec fn caps_args(list: Seq<Seq<char>>) -> Seq<Seq<char>> {
    caps_table(list).map_values(|e: (Seq<char>, bool)| cap_arg(e))
}

/// The model of a table of capabilities.
pub open spec fn table_view(t: Seq<(String, bool)>) -> Seq<(Seq<char>, bool)> {
    t.map_values(|e: (String, bool)| (e.0@, e.1))
}

proof fn lemma_find_cap(t: Seq<(Seq<char>, bool)>, name: Seq<char>, i: int)
    requires
        0 <= i,
    ensures
        find_cap(t, name, i) == t.len() || (i <= find_cap(t, name, i) < t.len() && t[find_cap(t, name, i)].0 == name),
        forall|k: int| i <= k < find_cap(t, name, i) ==> t[k].0 != name,
    decreases t.len() - i,
{
    if i < t.len() && t[i].0 != name {
        lemma_find_cap(t, name, i + 1);
    }
}

/// Adds the capabilities of the command line: `--cap-add` or `--cap-drop`
/// once per capability, as its last mention says (a leading `!` drops it).
/// The engine cannot both add and drop one, so the last mention wins.
pub fn resolve_capabilities(cli_args: &CmdStartArgs, cmd: &mut Vec<String>)
    ensures
        final(cmd).deep_view() == old(cmd).deep_view() + caps_args(cli_args.capabilities.deep_view()),
{
    let ghost list = cli_args.capabilities.deep_view();
    let mut table: Vec<(String, bool)> = Vec::new();
    let mut i: usize = 0;
    while i < cli_args.capabilities.len()
        invariant
            i <= cli_args.capabilities.len(),
            list == cli_args.capabilities.deep_view(),
            table_view(table@) == caps_table(list.take(i as int)),
        decreases cli_args.capabilities.len() - i,
    {
        let c = cli_args.capabilities[i].as_str();
        let cs = chars_of(c);
        let entry: (String, bool) = if cs.len() > 0 && cs[0] == '!' {
            (string_of_range(&cs, 1, cs.len()), false)
        } else {
            (copy_str(c), true)
        };
        assert(list.take(i + 1).drop_last() =~= list.take(i as int));
        assert(list.take(i + 1).last() == list[i as int]);
        assert(list[i as int] == c@);
        let ghost e = (entry.0@, entry.1);
        assert(e == cap_entry(c@));
        let ghost tv = table_view(table@);
        let mut k: usize = 0;
        while k < table.len() && !str_eq(table[k].0.as_str(), entry.0.as_str())
            invariant
                k <= table.len(),
                tv == table_view(table@),
                tv.len() == table.len(),
                e == (entry.0@, entry.1),
                find_cap(tv, e.0, 0) == find_cap(tv, e.0, k as int),
            decreases table.len() - k,
        {
            assert(tv[k as int].0 == table@[k as int].0@);
            k = k + 1;
        }
        proof {
            if k < table.len() {
                assert(tv[k as int].0 == table@[k as int].0@);
            }
        }
        if k < table.len() {
            table.set(k, entry);
            assert(table_view(table@) =~= tv.update(k as int, e));
        } else {
            table.push(entry);
            assert(table_view(table@) =~= tv.push(e));
        }
        i = i + 1;
    }
    assert(list.take(list.len() as int) =~= list);
    let ghost start = cmd.deep_view();
    let ghost tv = table_view(table@);
    let mut j: usize = 0;
    while j < table.len()
        invariant
            j <= table.len(),
            tv == table_view(table@),
            tv == caps_table(list),
            cmd.deep_view() == start + tv.take(j as int).map_values(|e: (Seq<char>, bool)| cap_arg(e)),
        decreases table.len() - j,
    {
        let mut a = if table[j].1 {
            copy_str("--cap-add=")
        } else {
            copy_str("--cap-drop=")
        };
        push_str(&mut a, table[j].0.as_str());
        push_owned(cmd, a);
        j = j + 1;
        assert(tv.take(j as int).map_values(|e: (Seq<char>, bool)| cap_arg(e))
            =~= tv.take(j - 1).map_values(|e: (Seq<char>, bool)| cap_arg(e)).push(cap_arg(tv[j - 1])));
    }
    assert(tv.take(tv.len() as int) =~= tv);
}

/// The argument that mounts the directory `canon` under the workspace `ws`.
pub open spec fn mount_arg(ws: Seq<char>, canon: Seq<char>) -> Seq<char> {
    "--volume="@ + canon + ":"@ + ws + "/"@ + last_component(canon)
}

/// The arguments for the additional mounts, or the error of the first that
/// fails: it must exist, be a directory, and not be the root.
pub open spec fn mounts_result(ws: Seq<char>, mounts: Seq<Seq<char>>, fs: spec_fn(Seq<char>) -> Option<Option<Seq<char>>>) -> Result<Seq<Seq<char>>, StartFault>
    decreases mounts.len(),
{
    if mounts.len() == 0 {
        Ok(Seq::empty())
    } else {
        match mounts_result(ws, mounts.drop_last(), fs) {
            Err(f) => Err(f),
            Ok(a) => {
                let m = mounts.last();
                match fs(m) {
                    None => Err(StartFault::MountMissing(m)),
                    Some(None) => Err(StartFault::MountNotDir(m)),
                    Some(Some(c)) => if last_component(c).len() == 0 {
                        Err(StartFault::MountUnnamed(m))
                    } else {
                        Ok(a.push(mount_arg(ws, c)))
                    },
                }
            },
        }
    }
}

proof fn lemma_mounts_err(ws: Seq<char>, mounts: Seq<Seq<char>>, j: int, fs: spec_fn(Seq<char>) -> Option<Option<Seq<char>>>)
    requires
        0 <= j <= mounts.len(),
        mounts_result(ws, mounts.take(j), fs) is Err,
    ensures
        mounts_result(ws, mounts, fs) == mounts_result(ws, mounts.take(j), fs),
    decreases mounts.len() - j,
{
    if j < mounts.len() {
        assert(mounts.take(j + 1).drop_last() =~= mounts.take(j));
        lemma_mounts_err(ws, mounts, j + 1, fs);
    } else {
        assert(mounts.take(j) =~= mounts);
    }
}

/// The arguments appended for the additional mounts before the first that
/// fails (all of them when none fails).
pub open spec fn mounts_done(ws: Seq<char>, mounts: Seq<Seq<char>>, fs: spec_fn(Seq<char>) -> Option<Option<Seq<char>>>) -> Seq<Seq<char>>
    decreases mounts.len(),
{
    if mounts.len() == 0 {
        Seq::empty()
    } else {
        match mounts_result(ws, mounts.drop_last(), fs) {
            Err(_) => mounts_done(ws, mounts.drop_last(), fs),
            Ok(a) => match mounts_result(ws, mounts, fs) {
                Ok(b) => b,
                Err(_) => a,
            },
        }
    }
}

proof fn lemma_mounts_done(ws: Seq<char>, mounts: Seq<Seq<char>>, j: int, a: Seq<Seq<char>>, fs: spec_fn(Seq<char>) -> Option<Option<Seq<char>>>)
    requires
        0 <= j < mounts.len(),
        mounts_result(ws, mounts.take(j), fs) == Ok::<Seq<Seq<char>>, StartFault>(a),
        mounts_result(ws, mounts.take(j + 1), fs) is Err,
    ensures
        mounts_done(ws, mounts, fs) == a,
    decreases mounts.len(),
{
    let d = mounts.drop_last();
    if j + 1 == mounts.len() {
        assert(d =~= mounts.take(j));
        assert(mounts.take(j + 1) =~= mounts);
    } else {
        assert(d.take(j) =~= mounts.take(j));
        assert(d.take(j + 1) =~= mounts.take(j + 1));
        lemma_mounts_err(ws, d, j + 1, fs);
        lemma_mounts_done(ws, d, j, a, fs);
    }
}

/// Mounts the additional directories of the command line inside the
/// workspace directory `ws_dir`, each under its own name, by canonical path.
pub fn mount_additional_mounts<P: Fn(&str) -> PathKind>(ws_dir: &str, cli_args: &CmdStartArgs, cmd: &mut Vec<String>, probe: &P) -> (r: Result<(), StartError>)
    requires
        forall|x: &str| #[trigger] probe.requires((x,)),
    ensures
        forall|fs: spec_fn(Seq<char>) -> Option<Option<Seq<char>>>| probe_agrees(*probe, fs) ==>
            appended(r, old(cmd).deep_view(), final(cmd).deep_view(), mounts_result(ws_dir@, cli_args.mount.deep_view(), fs),
                mounts_done(ws_dir@, cli_args.mount.deep_view(), fs)),
{
    let ghost list = cli_args.mount.deep_view();
    let ghost start = cmd.deep_view();
    assert(list.take(0) =~= Seq::<Seq<char>>::empty());
    assert(cmd.deep_view().subrange(start.len() as int, cmd.deep_view().len() as int) =~= Seq::<Seq<char>>::empty());
    assert(cmd.deep_view().subrange(0, start.len() as int) =~= start);
    let mut i: usize = 0;
    while i < cli_args.mount.len()
        invariant
            i <= cli_args.mount.len(),
            list == cli_args.mount.deep_view(),
            start == old(cmd).deep_view(),
            forall|x: &str| #[trigger] probe.requires((x,)),
            forall|fs: spec_fn(Seq<char>) -> Option<Option<Seq<char>>>| probe_agrees(*probe, fs) ==>
                mounts_result(ws_dir@, list.take(i as int), fs) == Ok::<Seq<Seq<char>>, StartFault>(cmd.deep_view().subrange(start.len() as int, cmd.deep_view().len() as int)),
            cmd.deep_view().len() >= start.len(),
            cmd.deep_view().subrange(0, start.len() as int) == start,
        decreases cli_args.mount.len() - i,
    {
        let m = cli_args.mount[i].as_str();
        assert(list.take(i + 1).drop_last() =~= list.take(i as int));
        assert(list.take(i + 1).last() == m@);
        let k = probe(m);
        proof {
            assert(call_ensures(*probe, (m,), k));
        }
        match k {
            PathKind::Missing => {
                proof {
                    assert forall|fs: spec_fn(Seq<char>) -> Option<Option<Seq<char>>>| probe_agrees(*probe, fs) implies
                        mounts_result(ws_dir@, list, fs) == Err::<Seq<Seq<char>>, StartFault>(StartFault::MountMissing(m@))
                        && cmd.deep_view() == start + mounts_done(ws_dir@, list, fs) by {
                        lemma_mounts_err(ws_dir@, list, i + 1, fs);
                        lemma_mounts_done(ws_dir@, list, i as int, cmd.deep_view().subrange(start.len() as int, cmd.deep_view().len() as int), fs);
                        assert(cmd.deep_view() =~= start + cmd.deep_view().subrange(start.len() as int, cmd.deep_view().len() as int));
                    }
                }
                return Err(StartError::MountMissing(copy_str(m)));
            },
            PathKind::Other => {
                proof {
                    assert forall|fs: spec_fn(Seq<char>) -> Option<Option<Seq<char>>>| probe_agrees(*probe, fs) implies
                        mounts_result(ws_dir@, list, fs) == Err::<Seq<Seq<char>>, StartFault>(StartFault::MountNotDir(m@))
                        && cmd.deep_view() == start + mounts_done(ws_dir@, list, fs) by {
                        lemma_mounts_err(ws_dir@, list, i + 1, fs);
                        lemma_mounts_done(ws_dir@, list, i as int, cmd.deep_view().subrange(start.len() as int, cmd.deep_view().len() as int), fs);
                        assert(cmd.deep_view() =~= start + cmd.deep_view().subrange(start.len() as int, cmd.deep_view().len() as int));
                    }
                }
                return Err(StartError::MountNotDir(copy_str(m)));
            },
            PathKind::Dir(canon) => {
                let name = file_name(canon.as_str());
                if name.as_str().is_empty() {
                    proof {
                        assert forall|fs: spec_fn(Seq<char>) -> Option<Option<Seq<char>>>| probe_agrees(*probe, fs) implies
                            mounts_result(ws_dir@, list, fs) == Err::<Seq<Seq<char>>, StartFault>(StartFault::MountUnnamed(m@))
                            && cmd.deep_view() == start + mounts_done(ws_dir@, list, fs) by {
                            lemma_mounts_err(ws_dir@, list, i + 1, fs);
                            lemma_mounts_done(ws_dir@, list, i as int, cmd.deep_view().subrange(start.len() as int, cmd.deep_view().len() as int), fs);
                            assert(cmd.deep_view() =~= start + cmd.deep_view().subrange(start.len() as int, cmd.deep_view().len() as int));
                    }
                    }
                    return Err(StartError::MountUnnamed(copy_str(m)));
                }
                let ghost before = cmd.deep_view();
                let mut a = copy_str("--volume=");
                push_str(&mut a, canon.as_str());
                push_str(&mut a, ":");
                push_str(&mut a, ws_dir);
                push_str(&mut a, "/");
                push_str(&mut a, name.as_str());
                push_owned(cmd, a);
                assert(cmd.deep_view().subrange(start.len() as int, cmd.deep_view().len() as int)
                    =~= before.subrange(start.len() as int, before.len() as int).push(mount_arg(ws_dir@, canon@)));
                assert(cmd.deep_view().subrange(0, start.len() as int) =~= before.subrange(0, start.len() as int));
            },
        }
        i = i + 1;
    }
    assert(list.take(list.len() as int) =~= list);
    assert(cmd.deep_view() =~= start + cmd.deep_view().subrange(start.len() as int, cmd.deep_view().len() as int));
    Ok(())
}

/// The directory of the user at run time inside the container.
pub open spec fn run_dir(uid: u32) -> Seq<char> {
    "/run/user/"@ + dec_text(uid as nat)
}

/// The arguments that pass pipewire (when `pipewire`) and pulseaudio (when
/// `pulse`) through: the host socket (from `PIPEWIRE_REMOTE`, or a unix
/// `PULSE_SERVER`, else the default) must exist.
pub open spec fn audio_result(uid: u32, pipewire: bool, pulse: bool, envs: spec_fn(Seq<char>) -> Option<Seq<char>>, fs: spec_fn(Seq<char>) -> Option<Option<Seq<char>>>) -> Result<Seq<Seq<char>>, StartFault> {
    let pw: Result<Seq<Seq<char>>, StartFault> = if !pipewire {
        Ok(Seq::empty())
    } else {
        let cpath = run_dir(uid) + "/pipewire-0"@;
        let host = match envs("PIPEWIRE_REMOTE"@) {
            Some(x) => x,
            None => cpath,
        };
        if exists_in(fs, host) {
            Ok(seq!["--volume="@ + host + ":"@ + cpath, "--env=PIPEWIRE_REMOTE="@ + cpath])
        } else {
            Err(StartFault::PipewireMissing(host))
        }
    };
    match pw {
        Err(f) => Err(f),
        Ok(a) => if !pulse {
            Ok(a)
        } else {
            let cpath = run_dir(uid) + "/pulse/native"@;
            let host: Result<Seq<char>, StartFault> = match envs("PULSE_SERVER"@) {
                Some(ps) => if has_prefix(ps, "unix:"@) {
                    Ok(ps.subrange(5, ps.len() as int))
                } else {
                    Err(StartFault::PulseInvalid(ps))
                },
                None => Ok(cpath),
            };
            match host {
                Err(f) => Err(f),
                Ok(h) => if exists_in(fs, h) {
                    Ok(a + seq!["--volume="@ + h + ":"@ + cpath, "--env=PULSE_SERVER=unix:"@ + cpath])
                } else {
                    Err(StartFault::PulseMissing(h))
                },
            }
        },
    }
}

/// The directory of the user at run time: `/run/user/<uid>`.
pub(crate) fn run_dir_exec(uid: u32) -> (r: String)
    ensures
        r@ == run_dir(uid),
{
    let mut r = copy_str("/run/user/");
    let n = u64_to_string(uid as u64);
    push_str(&mut r, n.as_str());
    r
}

/// Passes the pipewire and pulseaudio sockets through, as the command line
/// asks.
pub fn mount_audio<E: Fn(&str) -> Option<String>, P: Fn(&str) -> PathKind>(ctx: &Context, cli_args: &CmdStartArgs, cmd: &mut Vec<String>, env: &E, probe: &P) -> (r: Result<(), StartError>)
    requires
        forall|x: &str| #[trigger] env.requires((x,)),
        forall|x: &str| #[trigger] probe.requires((x,)),
    ensures
        forall|envs: spec_fn(Seq<char>) -> Option<Seq<char>>, fs: spec_fn(Seq<char>) -> Option<Option<Seq<char>>>|
            getter_agrees(*env, envs) && probe_agrees(*probe, fs) ==>
            appended(r, old(cmd).deep_view(), final(cmd).deep_view(),
                audio_result(ctx.user_id, or_false(cli_args.pipewire), or_false(cli_args.pulseaudio), envs, fs),
                match audio_result(ctx.user_id, or_false(cli_args.pipewire), false, envs, fs) {
                    Ok(a) => a,
                    Err(_) => Seq::empty(),
                }),
{
    let ghost start = cmd.deep_view();
    let pipewire = match cli_args.pipewire { Some(b) => b, None => false };
    let pulse = match cli_args.pulseaudio { Some(b) => b, None => false };
    let rd = run_dir_exec(ctx.user_id);
    let ghost mut pw_part: Seq<Seq<char>> = Seq::empty();
    // try to pass pipewire
    if pipewire {
        let cpath = concat(rd.as_str(), "/pipewire-0");
        // respect PIPEWIRE_REMOTE if defined
        let host = match env_get(env, "PIPEWIRE_REMOTE") {
            Some(x) => x,
            None => copy_str(cpath.as_str()),
        };
        if path_exists(probe, host.as_str()) {
            push_owned(cmd, concat4("--volume=", host.as_str(), ":", cpath.as_str()));
            push_owned(cmd, concat("--env=PIPEWIRE_REMOTE=", cpath.as_str()));
            proof {
                pw_part = seq!["--volume="@ + host@ + ":"@ + cpath@, "--env=PIPEWIRE_REMOTE="@ + cpath@];
            }
            assert(cmd.deep_view() =~= start + pw_part);
        } else {
            return Err(StartError::PipewireMissing(host));
        }
    } else {
        assert(cmd.deep_view() =~= start + pw_part);
    }
    assert(forall|envs: spec_fn(Seq<char>) -> Option<Seq<char>>, fs: spec_fn(Seq<char>) -> Option<Option<Seq<char>>>|
        getter_agrees(*env, envs) && probe_agrees(*probe, fs) ==>
        audio_result(ctx.user_id, pipewire, false, envs, fs) == Ok::<Seq<Seq<char>>, StartFault>(pw_part));
    // try to pass pulseaudio
    if pulse {
        let cpath = concat(rd.as_str(), "/pulse/native");
        // respect PULSE_SERVER if defined
        let host = match env_get(env, "PULSE_SERVER") {
            Some(ps) => {
                // only unix sockets are accepted
                if starts_with(ps.as_str(), "unix:") {
                    proof {
                        reveal_strlit("unix:");
                    }
                    str_suffix(ps.as_str(), 5)
                } else {
                    return Err(StartError::PulseInvalid(ps));
                }
            },
            None => copy_str(cpath.as_str()),
        };
        if path_exists(probe, host.as_str()) {
            let ghost mid = cmd.deep_view();
            push_owned(cmd, concat4("--volume=", host.as_str(), ":", cpath.as_str()));
            push_owned(cmd, concat("--env=PULSE_SERVER=unix:", cpath.as_str()));
            assert(cmd.deep_view() =~= start + (pw_part + seq!["--volume="@ + host@ + ":"@ + cpath@, "--env=PULSE_SERVER=unix:"@ + cpath@]));
        } else {
            return Err(StartError::PulseMissing(host));
        }
    }
    Ok(())
}

/// The value of an optional flag, false when unset.
pub open spec fn or_false(b: Option<bool>) -> bool {
    match b {
        Some(v) => v,
        None => false,
    }
}

/// The arguments that pass the wayland socket through (when `on`): the
/// display named by the variable of the application or else by
/// `WAYLAND_DISPLAY`; its socket must exist; the font directories of the
/// host that exist are mounted too.
pub open spec fn wayland_result(uid: u32, home: Seq<char>, on: bool, envs: spec_fn(Seq<char>) -> Option<Seq<char>>, fs: spec_fn(Seq<char>) -> Option<Option<Seq<char>>>) -> Result<Seq<Seq<char>>, StartFault> {
    if !on {
        Ok(Seq::empty())
    } else {
        let disp = match envs(ENV_WAYLAND_DISPLAY@) {
            Some(d) => Some(d),
            None => envs("WAYLAND_DISPLAY"@),
        };
        match disp {
            None => Err(StartFault::WaylandUndefined),
            Some(d) => {
                let sock = run_dir(uid) + "/"@ + d;
                if !exists_in(fs, sock) {
                    Err(StartFault::WaylandMissing(sock))
                } else {
                    let dot = path_join(home, ".fonts"@);
                    let local = path_join(path_join(path_join(home, ".local"@), "share"@), "fonts"@);
                    Ok(seq!["--volume="@ + sock + ":"@ + sock, "--env=WAYLAND_DISPLAY="@ + d]
                        + (if exists_in(fs, "/usr/share/fonts"@) {
                            seq!["--volume=/usr/share/fonts:/usr/share/fonts/host:ro"@]
                        } else {
                            Seq::empty()
                        })
                        + (if exists_in(fs, dot) {
                            seq!["--volume="@ + dot + ":/usr/share/fonts/host_dot:ro"@]
                        } else {
                            Seq::empty()
                        })
                        + (if exists_in(fs, local) {
                            seq!["--volume="@ + local + ":/usr/share/fonts/host_local:ro"@]
                        } else {
                            Seq::empty()
                        }))
                }
            },
        }
    }
}

proof fn lemma_font_dirs(home: Seq<char>)
    requires
        home.len() > 0,
        home.last() != '/',
    ensures
        path_join(home, ".fonts"@) == home + "/.fonts"@,
        path_join(path_join(path_join(home, ".local"@), "share"@), "fonts"@) == home + "/.local/share/fonts"@,
{
    reveal_strlit(".fonts");
    reveal_strlit(".local");
    reveal_strlit("share");
    reveal_strlit("fonts");
    reveal_strlit("/.fonts");
    reveal_strlit("/.local");
    reveal_strlit("/.local/share");
    reveal_strlit("/.local/share/fonts");
    assert(path_join(home, ".fonts"@) =~= home + "/.fonts"@);
    let l1 = path_join(home, ".local"@);
    assert(l1 =~= home + "/.local"@);
    assert(l1.last() == 'l');
    let l2 = path_join(l1, "share"@);
    assert(l2 =~= home + "/.local/share"@);
    assert(l2.last() == 'e');
    assert(path_join(l2, "fonts"@) =~= home + "/.local/share/fonts"@);
}

proof fn lemma_font_args(home: Seq<char>)
    ensures
        "--volume="@ + (home + "/.fonts"@) + ":/usr/share/fonts/host_dot:ro"@
            == "--volume="@ + home + "/.fonts:/usr/share/fonts/host_dot:ro"@,
        "--volume="@ + (home + "/.local/share/fonts"@) + ":/usr/share/fonts/host_local:ro"@
            == "--volume="@ + home + "/.local/share/fonts:/usr/share/fonts/host_local:ro"@,
{
    reveal_strlit("/.fonts");
    reveal_strlit("/.local/share/fonts");
    reveal_strlit(":/usr/share/fonts/host_dot:ro");
    reveal_strlit(":/usr/share/fonts/host_local:ro");
    reveal_strlit("/.fonts:/usr/share/fonts/host_dot:ro");
    reveal_strlit("/.local/share/fonts:/usr/share/fonts/host_local:ro");
    assert("--volume="@ + (home + "/.fonts"@) + ":/usr/share/fonts/host_dot:ro"@
        =~= "--volume="@ + home + "/.fonts:/usr/share/fonts/host_dot:ro"@);
    assert("--volume="@ + (home + "/.local/share/fonts"@) + ":/usr/share/fonts/host_local:ro"@
        =~= "--volume="@ + home + "/.local/share/fonts:/usr/share/fonts/host_local:ro"@);
}

/// With the wayland socket passed through, the font directories of the host
/// that exist are mounted read-only: the system fonts at `host`, the legacy
/// `.fonts` of the home at `host_dot` and `.local/share/fonts` of the home
/// at `host_local` (for a home given without a trailing `/`).
pub proof fn law_wayland_fonts(uid: u32, home: Seq<char>, envs: spec_fn(Seq<char>) -> Option<Seq<char>>, fs: spec_fn(Seq<char>) -> Option<Option<Seq<char>>>)
    requires
        wayland_result(uid, home, true, envs, fs) is Ok,
        home.len() > 0,
        home.last() != '/',
    ensures
        ({
            let v = wayland_result(uid, home, true, envs, fs)->Ok_0;
            &&& exists_in(fs, "/usr/share/fonts"@) ==> v.contains("--volume=/usr/share/fonts:/usr/share/fonts/host:ro"@)
            &&& exists_in(fs, home + "/.fonts"@) ==> v.contains("--volume="@ + home + "/.fonts:/usr/share/fonts/host_dot:ro"@)
            &&& exists_in(fs, home + "/.local/share/fonts"@)
                ==> v.contains("--volume="@ + home + "/.local/share/fonts:/usr/share/fonts/host_local:ro"@)
        }),
{
    lemma_font_dirs(home);
    lemma_font_args(home);
    let v = wayland_result(uid, home, true, envs, fs)->Ok_0;
    let dot = path_join(home, ".fonts"@);
    let local = path_join(path_join(path_join(home, ".local"@), "share"@), "fonts"@);
    let sys: Seq<Seq<char>> = if exists_in(fs, "/usr/share/fonts"@) {
        seq!["--volume=/usr/share/fonts:/usr/share/fonts/host:ro"@]
    } else {
        Seq::empty()
    };
    let d: Seq<Seq<char>> = if exists_in(fs, dot) {
        seq!["--volume="@ + dot + ":/usr/share/fonts/host_dot:ro"@]
    } else {
        Seq::empty()
    };
    if exists_in(fs, "/usr/share/fonts"@) {
        assert(v[2] == "--volume=/usr/share/fonts:/usr/share/fonts/host:ro"@);
    }
    if exists_in(fs, home + "/.fonts"@) {
        assert(v[2 + sys.len() as int] == "--volume="@ + dot + ":/usr/share/fonts/host_dot:ro"@);
    }
    if exists_in(fs, home + "/.local/share/fonts"@) {
        assert(v[2 + sys.len() + d.len() as int] == "--volume="@ + local + ":/usr/share/fonts/host_local:ro"@);
    }
}

/// Passes the wayland socket and the fonts of the host through, as the
/// command line asks.
pub fn mount_wayland<E: Fn(&str) -> Option<String>, P: Fn(&str) -> PathKind>(ctx: &Context, cli_args: &CmdStartArgs, cmd: &mut Vec<String>, env: &E, probe: &P) -> (r: Result<(), StartError>)
    requires
        forall|x: &str| #[trigger] env.requires((x,)),
        forall|x: &str| #[trigger] probe.requires((x,)),
    ensures
        forall|envs: spec_fn(Seq<char>) -> Option<Seq<char>>, fs: spec_fn(Seq<char>) -> Option<Option<Seq<char>>>|
            getter_agrees(*env, envs) && probe_agrees(*probe, fs) ==>
            appended(r, old(cmd).deep_view(), final(cmd).deep_view(),
                wayland_result(ctx.user_id, ctx.user_home@, or_false(cli_args.wayland), envs, fs), Seq::empty()),
{
    let ghost start = cmd.deep_view();
    let on = match cli_args.wayland { Some(b) => b, None => false };
    if !on {
        assert(cmd.deep_view() =~= start + Seq::<Seq<char>>::empty());
        return Ok(());
    }
    // prefer the variable of the application
    let disp = match env_get(env, ENV_WAYLAND_DISPLAY) {
        Some(d) => Some(d),
        None => env_get(env, "WAYLAND_DISPLAY"),
    };
    let d = match disp {
        Some(d) => d,
        None => return Err(StartError::WaylandUndefined),
    };
    let rd = run_dir_exec(ctx.user_id);
    let sock = concat3(rd.as_str(), "/", d.as_str());
    if !path_exists(probe, sock.as_str()) {
        return Err(StartError::WaylandMissing(sock));
    }
    push_owned(cmd, concat4("--volume=", sock.as_str(), ":", sock.as_str()));
    push_owned(cmd, concat("--env=WAYLAND_DISPLAY=", d.as_str()));
    let ghost p1 = seq!["--volume="@ + sock@ + ":"@ + sock@, "--env=WAYLAND_DISPLAY="@ + d@];
    assert(cmd.deep_view() =~= start + p1);
    // add fonts if they exist
    let ghost mut p2: Seq<Seq<char>> = Seq::empty();
    if path_exists(probe, "/usr/share/fonts") {
        push_string_lit(cmd, "--volume=/usr/share/fonts:/usr/share/fonts/host:ro");
        proof {
            p2 = seq!["--volume=/usr/share/fonts:/usr/share/fonts/host:ro"@];
        }
    }
    assert(cmd.deep_view() =~= start + p1 + p2);
    // legacy ~/.fonts
    let dot = join_path(ctx.user_home.as_str(), ".fonts");
    let ghost mut p3: Seq<Seq<char>> = Seq::empty();
    if path_exists(probe, dot.as_str()) {
        push_owned(cmd, concat3("--volume=", dot.as_str(), ":/usr/share/fonts/host_dot:ro"));
        proof {
            p3 = seq!["--volume="@ + dot@ + ":/usr/share/fonts/host_dot:ro"@];
        }
    }
    assert(cmd.deep_view() =~= start + p1 + p2 + p3);
    // font dir ~/.local/share/fonts
    let l1 = join_path(ctx.user_home.as_str(), ".local");
    let l2 = join_path(l1.as_str(), "share");
    let local = join_path(l2.as_str(), "fonts");
    let ghost mut p4: Seq<Seq<char>> = Seq::empty();
    if path_exists(probe, local.as_str()) {
        push_owned(cmd, concat3("--volume=", local.as_str(), ":/usr/share/fonts/host_local:ro"));
        proof {
            p4 = seq!["--volume="@ + local@ + ":/usr/share/fonts/host_local:ro"@];
        }
    }
    assert(cmd.deep_view() =~= start + (p1 + p2 + p3 + p4));
    Ok(())
}

/// Pushes a copy of `s` onto `v`.
fn push_string_lit(v: &mut Vec<String>, s: &str)
    ensures
        final(v).deep_view() == old(v).deep_view().push(s@),
{
    crate::text::push_string(v, s);
}

/// The device files of `/dev/dri` among the entry names: cards and render nodes.
pub open spec fn dri_files(names: Seq<Seq<char>>) -> Seq<Seq<char>>
    decreases names.len(),
{
    if names.len() == 0 {
        Seq::empty()
    } else {
        let rest = dri_files(names.drop_last());
        let n = names.last();
        if has_prefix(n, "card"@) || has_prefix(n, "renderD"@) {
            rest.push("/dev/dri/"@ + n)
        } else {
            rest
        }
    }
}

/// The device files of the GPUs of these indices (card `i` with render node
/// `127 + i`), or the error for the first that is missing.
pub open spec fn gpu_files(gpus: Seq<u8>, fs: spec_fn(Seq<char>) -> Option<Option<Seq<char>>>) -> Result<Seq<Seq<char>>, StartFault>
    decreases gpus.len(),
{
    if gpus.len() == 0 {
        Ok(Seq::empty())
    } else {
        match gpu_files(gpus.drop_last(), fs) {
            Err(f) => Err(f),
            Ok(a) => {
                let g = gpus.last();
                let card = "/dev/dri/card"@ + dec_text(g as nat);
                let render = "/dev/dri/renderD"@ + dec_text((127 + g) as nat);
                if exists_in(fs, card) && exists_in(fs, render) {
                    Ok(a.push(card).push(render))
                } else {
                    Err(StartFault::GpuMissing(g))
                }
            },
        }
    }
}

/// The arguments that pass GPUs through: none when none is asked for; all
/// the cards and render nodes of `/dev/dri` (entry names `dri`) when index 0
/// is asked for; else each GPU asked for, which must exist.
pub open spec fn gpu_result(gpus: Seq<u8>, dri: Option<Seq<Seq<char>>>, fs: spec_fn(Seq<char>) -> Option<Option<Seq<char>>>) -> Result<Seq<Seq<char>>, StartFault> {
    let files: Result<Seq<Seq<char>>, StartFault> = if gpus.len() == 0 {
        Ok(Seq::empty())
    } else if gpus.contains(0u8) {
        match dri {
            None => Err(StartFault::GpuListFailed),
            Some(n) => Ok(dri_files(n)),
        }
    } else {
        gpu_files(gpus, fs)
    };
    match files {
        Err(f) => Err(f),
        Ok(fl) => Ok(fl.map_values(|f: Seq<char>| "--device="@ + f)),
    }
}

/// The GPU indices of the command line (none when unset).
pub open spec fn gpus_of(g: Option<Vec<u8>>) -> Seq<u8> {
    match g {
        Some(v) => v@,
        None => Seq::empty(),
    }
}

/// The view of an optional list of strings.
pub open spec fn opt_strs(o: Option<Vec<String>>) -> Option<Seq<Seq<char>>> {
    match o {
        Some(v) => Some(v.deep_view()),
        None => None,
    }
}

proof fn lemma_gpu_err(gpus: Seq<u8>, j: int, fs: spec_fn(Seq<char>) -> Option<Option<Seq<char>>>)
    requires
        0 <= j <= gpus.len(),
        gpu_files(gpus.take(j), fs) is Err,
    ensures
        gpu_files(gpus, fs) == gpu_files(gpus.take(j), fs),
    decreases gpus.len() - j,
{
    if j < gpus.len() {
        assert(gpus.take(j + 1).drop_last() =~= gpus.take(j));
        lemma_gpu_err(gpus, j + 1, fs);
    } else {
        assert(gpus.take(j) =~= gpus);
    }
}

fn gpu_list(gpus: &Vec<u8>, probe: &impl Fn(&str) -> PathKind) -> (r: Result<Vec<String>, StartError>)
    requires
        forall|x: &str| #[trigger] probe.requires((x,)),
        forall|k: int| 0 <= k < gpus.len() ==> gpus@[k] <= 128,
    ensures
        forall|fs: spec_fn(Seq<char>) -> Option<Option<Seq<char>>>| probe_agrees(*probe, fs) ==>
            match gpu_files(gpus@, fs) {
                Ok(a) => r matches Ok(v) && v.deep_view() == a,
                Err(f) => r matches Err(e) && e@ == f,
            },
{
    let mut files: Vec<String> = Vec::new();
    let mut i: usize = 0;
    assert(gpus@.take(0) =~= Seq::<u8>::empty());
    assert(files.deep_view() =~= Seq::<Seq<char>>::empty());
    while i < gpus.len()
        invariant
            i <= gpus.len(),
            forall|x: &str| #[trigger] probe.requires((x,)),
            forall|k: int| 0 <= k < gpus.len() ==> gpus@[k] <= 128,
            forall|fs: spec_fn(Seq<char>) -> Option<Option<Seq<char>>>| probe_agrees(*probe, fs) ==>
                gpu_files(gpus@.take(i as int), fs) == Ok::<Seq<Seq<char>>, StartFault>(files.deep_view()),
        decreases gpus.len() - i,
    {
        let g = gpus[i];
        assert(gpus@.take(i + 1).drop_last() =~= gpus@.take(i as int));
        assert(gpus@.take(i + 1).last() == g);
        // the first card is card1 with render node renderD128
        let card = concat("/dev/dri/card", u64_to_string(g as u64).as_str());
        let render = concat("/dev/dri/renderD", u64_to_string(127 + g as u64).as_str());
        if path_exists(probe, card.as_str()) && path_exists(probe, render.as_str()) {
            let ghost before = files.deep_view();
            push_owned(&mut files, card);
            push_owned(&mut files, render);
        } else {
            proof {
                assert forall|fs: spec_fn(Seq<char>) -> Option<Option<Seq<char>>>| probe_agrees(*probe, fs) implies
                    gpu_files(gpus@, fs) == Err::<Seq<Seq<char>>, StartFault>(StartFault::GpuMissing(g)) by {
                    lemma_gpu_err(gpus@, i + 1, fs);
                }
            }
            return Err(StartError::GpuMissing(g));
        }
        i = i + 1;
    }
    assert(gpus@.take(gpus.len() as int) =~= gpus@);
    Ok(files)
}

fn dri_list(names: &Vec<String>) -> (r: Vec<String>)
    ensures
        r.deep_view() == dri_files(names.deep_view()),
{
    let ghost nv = names.deep_view();
    let mut files: Vec<String> = Vec::new();
    let mut i: usize = 0;
    assert(nv.take(0) =~= Seq::<Seq<char>>::empty());
    while i < names.len()
        invariant
            i <= names.len(),
            nv == names.deep_view(),
            files.deep_view() == dri_files(nv.take(i as int)),
        decreases names.len() - i,
    {
        let n = names[i].as_str();
        assert(nv.take(i + 1).drop_last() =~= nv.take(i as int));
        assert(nv.take(i + 1).last() == n@);
        // just filter paths by name
        if starts_with(n, "card") || starts_with(n, "renderD") {
            push_owned(&mut files, concat("/dev/dri/", n));
        }
        i = i + 1;
    }
    assert(nv.take(names.len() as int) =~= nv);
    files
}

/// Passes the GPUs of the command line through as devices; `dri` holds the
/// entry names of `/dev/dri` (`None` when it could not be read).
pub fn gpu_passthrough<P: Fn(&str) -> PathKind>(cli_args: &CmdStartArgs, cmd: &mut Vec<String>, dri: &Option<Vec<String>>, probe: &P) -> (r: Result<(), StartError>)
    requires
        forall|x: &str| #[trigger] probe.requires((x,)),
        !gpus_of(cli_args.gpus).contains(0u8) ==> forall|k: int| 0 <= k < gpus_of(cli_args.gpus).len() ==> gpus_of(cli_args.gpus)[k] <= 128,
    ensures
        forall|fs: spec_fn(Seq<char>) -> Option<Option<Seq<char>>>| probe_agrees(*probe, fs) ==>
            appended(r, old(cmd).deep_view(), final(cmd).deep_view(), gpu_result(gpus_of(cli_args.gpus), opt_strs(*dri), fs), Seq::empty()),
{
    let ghost start = cmd.deep_view();
    let empty: Vec<u8> = Vec::new();
    let gpus: &Vec<u8> = match &cli_args.gpus {
        Some(g) => g,
        None => &empty,
    };
    assert(gpus@ == gpus_of(cli_args.gpus));
    // no gpus selected do nothing
    if gpus.len() == 0 {
        assert(cmd.deep_view() =~= start + Seq::<Seq<char>>::empty().map_values(|f: Seq<char>| "--device="@ + f));
        return Ok(());
    }
    let mut has_zero = false;
    let mut i: usize = 0;
    while i < gpus.len()
        invariant
            i <= gpus.len(),
            has_zero == (exists|k: int| 0 <= k < i && gpus@[k] == 0u8),
        decreases gpus.len() - i,
    {
        if gpus[i] == 0 {
            has_zero = true;
        }
        i = i + 1;
    }
    assert(has_zero == gpus@.contains(0u8));
    // 0 means all of them
    let files = if has_zero {
        match dri {
            Some(names) => dri_list(names),
            None => return Err(StartError::GpuListFailed),
        }
    } else {
        match gpu_list(gpus, probe) {
            Ok(f) => f,
            Err(e) => return Err(e),
        }
    };
    let ghost fv = files.deep_view();
    let mut j: usize = 0;
    while j < files.len()
        invariant
            j <= files.len(),
            fv == files.deep_view(),
            cmd.deep_view() == start + fv.take(j as int).map_values(|f: Seq<char>| "--device="@ + f),
        decreases files.len() - j,
    {
        push_owned(cmd, concat("--device=", files[j].as_str()));
        j = j + 1;
        assert(fv.take(j as int).map_values(|f: Seq<char>| "--device="@ + f)
            =~= fv.take(j - 1).map_values(|f: Seq<char>| "--device="@ + f).push("--device="@ + fv[j - 1]));
    }
    assert(fv.take(fv.len() as int) =~= fv);
    Ok(())
}

/// The arguments that pass the ssh-agent socket through (when `on`).
pub open spec fn ssh_result(uid: u32, on: bool, envs: spec_fn(Seq<char>) -> Option<Seq<char>>, fs: spec_fn(Seq<char>) -> Option<Option<Seq<char>>>) -> Result<Seq<Seq<char>>, StartFault> {
    if !on {
        Ok(Seq::empty())
    } else {
        match envs("SSH_AUTH_SOCK"@) {
            None => Err(StartFault::SshUndefined),
            Some(s) => if exists_in(fs, s) {
                Ok(seq!["--volume="@ + s + ":"@ + run_dir(uid) + "/ssh-auth"@, "--env=SSH_AUTH_SOCK="@ + run_dir(uid) + "/ssh-auth"@])
            } else {
                Err(StartFault::SshMissing(s))
            },
        }
    }
}

/// Passes the ssh-agent socket through, as the command line asks.
pub fn mount_ssh_agent<E: Fn(&str) -> Option<String>, P: Fn(&str) -> PathKind>(ctx: &Context, cli_args: &CmdStartArgs, cmd: &mut Vec<String>, env: &E, probe: &P) -> (r: Result<(), StartError>)
    requires
        forall|x: &str| #[trigger] env.requires((x,)),
        forall|x: &str| #[trigger] probe.requires((x,)),
    ensures
        forall|envs: spec_fn(Seq<char>) -> Option<Seq<char>>, fs: spec_fn(Seq<char>) -> Option<Option<Seq<char>>>|
            getter_agrees(*env, envs) && probe_agrees(*probe, fs) ==>
            appended(r, old(cmd).deep_view(), final(cmd).deep_view(), ssh_result(ctx.user_id, or_false(cli_args.ssh_agent), envs, fs), Seq::empty()),
{
    let ghost start = cmd.deep_view();
    let on = match cli_args.ssh_agent { Some(b) => b, None => false };
    if !on {
        assert(cmd.deep_view() =~= start + Seq::<Seq<char>>::empty());
        return Ok(());
    }
    let sock = match env_get(env, "SSH_AUTH_SOCK") {
        Some(s) => s,
        None => return Err(StartError::SshUndefined),
    };
    if !path_exists(probe, sock.as_str()) {
        return Err(StartError::SshMissing(sock));
    }
    let rd = run_dir_exec(ctx.user_id);
    push_owned(cmd, concat5("--volume=", sock.as_str(), ":", rd.as_str(), "/ssh-auth"));
    push_owned(cmd, concat3("--env=SSH_AUTH_SOCK=", rd.as_str(), "/ssh-auth"));
    assert(cmd.deep_view() =~= start + seq!["--volume="@ + sock@ + ":"@ + run_dir(ctx.user_id) + "/ssh-auth"@,
        "--env=SSH_AUTH_SOCK="@ + run_dir(ctx.user_id) + "/ssh-auth"@]);
    Ok(())
}

/// The arguments that pass the session bus through (when `on`): the address
/// must be a unix path whose socket exists.
pub open spec fn bus_result(uid: u32, on: bool, envs: spec_fn(Seq<char>) -> Option<Seq<char>>, fs: spec_fn(Seq<char>) -> Option<Option<Seq<char>>>) -> Result<Seq<Seq<char>>, StartFault> {
    if !on {
        Ok(Seq::empty())
    } else {
        match envs("DBUS_SESSION_BUS_ADDRESS"@) {
            None => Err(StartFault::BusUndefined),
            Some(a) => if !has_prefix(a, "unix:path="@) {
                Err(StartFault::BusInvalid(a))
            } else {
                let s = a.subrange(10, a.len() as int);
                if exists_in(fs, s) {
                    Ok(seq!["--volume="@ + s + ":"@ + run_dir(uid) + "/bus"@,
                        "--env=DBUS_SESSION_BUS_ADDRESS=unix:path="@ + run_dir(uid) + "/bus"@])
                } else {
                    Err(StartFault::BusMissing(s))
                }
            },
        }
    }
}

/// Passes the session bus socket through, as the command line asks.
pub fn mount_session_bus<E: Fn(&str) -> Option<String>, P: Fn(&str) -> PathKind>(ctx: &Context, cli_args: &CmdStartArgs, cmd: &mut Vec<String>, env: &E, probe: &P) -> (r: Result<(), StartError>)
    requires
        forall|x: &str| #[trigger] env.requires((x,)),
        forall|x: &str| #[trigger] probe.requires((x,)),
    ensures
        forall|envs: spec_fn(Seq<char>) -> Option<Seq<char>>, fs: spec_fn(Seq<char>) -> Option<Option<Seq<char>>>|
            getter_agrees(*env, envs) && probe_agrees(*probe, fs) ==>
            appended(r, old(cmd).deep_view(), final(cmd).deep_view(), bus_result(ctx.user_id, or_false(cli_args.session_bus), envs, fs), Seq::empty()),
{
    let ghost start = cmd.deep_view();
    let on = match cli_args.session_bus { Some(b) => b, None => false };
    if !on {
        assert(cmd.deep_view() =~= start + Seq::<Seq<char>>::empty());
        return Ok(());
    }
    let addr = match env_get(env, "DBUS_SESSION_BUS_ADDRESS") {
        Some(a) => a,
        None => return Err(StartError::BusUndefined),
    };
    if !starts_with(addr.as_str(), "unix:path=") {
        return Err(StartError::BusInvalid(addr));
    }
    proof {
        reveal_strlit("unix:path=");
    }
    let sock = str_suffix(addr.as_str(), 10);
    if !path_exists(probe, sock.as_str()) {
        return Err(StartError::BusMissing(sock));
    }
    let rd = run_dir_exec(ctx.user_id);
    push_owned(cmd, concat5("--volume=", sock.as_str(), ":", rd.as_str(), "/bus"));
    push_owned(cmd, concat3("--env=DBUS_SESSION_BUS_ADDRESS=unix:path=", rd.as_str(), "/bus"));
    assert(cmd.deep_view() =~= start + seq!["--volume="@ + sock@ + ":"@ + run_dir(ctx.user_id) + "/bus"@,
        "--env=DBUS_SESSION_BUS_ADDRESS=unix:path="@ + run_dir(ctx.user_id) + "/bus"@]);
    Ok(())
}

/// Each capability of the command line is added or dropped once: no two
/// entries of the table name the same capability.
pub proof fn law_capabilities_once(list: Seq<Seq<char>>)
    ensures
        forall|i: int, j: int| 0 <= i < j < caps_table(list).len() ==> #[trigger] caps_table(list)[i].0 != #[trigger] caps_table(list)[j].0,
    decreases list.len(),
{
    if list.len() > 0 {
        law_capabilities_once(list.drop_last());
        let t = caps_table(list.drop_last());
        let e = cap_entry(list.last());
        lemma_find_cap(t, e.0, 0);
    }
}

/// The last mention of a capability on the command line decides whether it
/// is added or dropped.
pub proof fn law_capability_last_mention_wins(list: Seq<Seq<char>>, k: int)
    requires
        0 <= k < list.len(),
        forall|j: int| k < j < list.len() ==> #[trigger] cap_entry(list[j]).0 != cap_entry(list[k]).0,
    ensures
        caps_table(list).contains(cap_entry(list[k])),
    decreases list.len(),
{
    let t = caps_table(list.drop_last());
    let e = cap_entry(list.last());
    lemma_find_cap(t, e.0, 0);
    let f = find_cap(t, e.0, 0);
    if k == list.len() - 1 {
        if f < t.len() {
            assert(caps_table(list)[f] == e);
        } else {
            assert(caps_table(list)[t.len() as int] == e);
        }
    } else {
        let d = list.drop_last();
        assert forall|j: int| k < j < d.len() implies #[trigger] cap_entry(d[j]).0 != cap_entry(d[k]).0 by {
            assert(d[j] == list[j]);
        }
        law_capability_last_mention_wins(d, k);
        assert(d[k] == list[k]);
        let i = choose|i: int| 0 <= i < t.len() && t[i] == cap_entry(list[k]);
        assert(cap_entry(list[list.len() - 1]).0 != cap_entry(list[k]).0);
        if f < t.len() {
            assert(f != i);
            assert(caps_table(list)[i] == cap_entry(list[k]));
        } else {
            assert(caps_table(list)[i] == cap_entry(list[k]));
        }
    }
}

} // verus!
