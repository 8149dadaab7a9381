//! Building images.
use vstd::prelude::*;
use crate::cli::CmdImageBuildArgs;
use crate::host::{path_exists, probe_agrees, PathKind};
use crate::paths::{file_name, last_component};
use crate::text::{concat, concat3, copy_str, push_owned, push_string};

verus! {

/// The shape of a time written as `%Y%m%dT%H%M%S`: a year of at least four
/// characters whose last four are digits (a sign comes first outside the
/// years 0 to 9999), then month, day, `T`, hour, minute and second as two
/// digits each.
pub open spec fn time_tag_shape(s: Seq<char>) -> bool {
    &&& s.len() >= 15
    &&& s[s.len() - 7] == 'T'
    &&& forall|i: int| s.len() - 15 <= i < s.len() && i != s.len() - 7 ==> '0' <= #[trigger] s[i] <= '9'
}

/// Calls chrono's `Local::now()` and formats it as `%Y%m%dT%H%M%S` (chrono's
/// `format`; a fixed pattern that chrono accepts, where an arbitrary one
/// could make the formatting fail): the current local time as text. Which
/// time it is depends on the clock and the time zone of the host; what is
/// promised is its shape, as chrono writes each field (the year zero-padded
/// to four digits, the others to two).
#[verifier::external_body]
fn local_time_tag() -> (r: String)
    ensures
        time_tag_shape(r@),
{
    format!("{}", chrono::offset::Local::now().format("%Y%m%dT%H%M%S"))
}

/// The tag of the image: the one asked for, or the time `now` when none or
/// an empty one was given.
pub open spec fn build_tag(tag: Option<String>, now: Seq<char>) -> Seq<char> {
    match tag {
        Some(t) => if t@.len() == 0 {
            now
        } else {
            t@
        },
        None => now,
    }
}

/// The file to build from: the one asked for, else `Containerfile` or
/// `Dockerfile` where they exist.
pub open spec fn build_file(file: Option<String>, fs: spec_fn(Seq<char>) -> Option<Option<Seq<char>>>) -> Option<Seq<char>> {
    match file {
        Some(f) => Some(f@),
        None => if fs("Containerfile"@) is Some {
            Some("Containerfile"@)
        } else if fs("Dockerfile"@) is Some {
            Some("Dockerfile"@)
        } else {
            None
        },
    }
}

/// The engine arguments that build the image `name` from `file`.
pub open spec fn build_args(cli: CmdImageBuildArgs, name: Seq<char>, file: Seq<char>, tag: Seq<char>) -> Seq<Seq<char>> {
    seq!["build"@, "--security-opt"@, "label=disable"@, "--file"@, file]
        + seq!["--tag"@, name + ":"@ + tag]
        + (if cli.no_cache { seq!["--no-cache"@] } else { Seq::empty() })
        + (match cli.dotfiles {
            Some(d) => seq!["--volume"@, d@ + ":/dotfiles:ro,nocopy"@],
            None => Seq::empty(),
        })
        + seq![match cli.build_dir {
            Some(b) => b@,
            None => "."@,
        }]
}

/// The engine arguments that build an image named after the current
/// directory `cwd` (see `build_args`), given the time `now` for a missing or
/// empty tag;
/// `None` when there is no file to build from.
pub fn build_image_args<P: Fn(&str) -> PathKind>(cli_args: &CmdImageBuildArgs, cwd: &str, now: &str, probe: &P) -> (r: Option<Vec<String>>)
    requires
        forall|x: &str| #[trigger] probe.requires((x,)),
    ensures
        forall|fs: spec_fn(Seq<char>) -> Option<Option<Seq<char>>>| probe_agrees(*probe, fs) ==>
            match build_file(cli_args.containerfile, fs) {
                None => r is None,
                Some(f) => r matches Some(v) && v.deep_view() == build_args(*cli_args, last_component(cwd@), f, build_tag(cli_args.tag, now@)),
            },
{
    // the name of the image is that of the directory
    let name = file_name(cwd);
    // prefer the provided containerfile but default to either Containerfile
    // or Dockerfile if they exist
    let file = match &cli_args.containerfile {
        Some(f) => copy_str(f.as_str()),
        None => if path_exists(probe, "Containerfile") {
            copy_str("Containerfile")
        } else if path_exists(probe, "Dockerfile") {
            copy_str("Dockerfile")
        } else {
            return None;
        },
    };
    let mut cmd: Vec<String> = Vec::new();
    push_string(&mut cmd, "build");
    push_string(&mut cmd, "--security-opt");
    push_string(&mut cmd, "label=disable");
    push_string(&mut cmd, "--file");
    push_owned(&mut cmd, file);
    push_string(&mut cmd, "--tag");
    match &cli_args.tag {
        // a missing or empty tag is replaced by the time
        Some(t) => if t.as_str().is_empty() {
            push_owned(&mut cmd, concat3(name.as_str(), ":", now));
        } else {
            push_owned(&mut cmd, concat3(name.as_str(), ":", t.as_str()));
        },
        None => push_owned(&mut cmd, concat3(name.as_str(), ":", now)),
    }
    if cli_args.no_cache {
        push_string(&mut cmd, "--no-cache");
    }
    // mount dotfiles if provided
    match &cli_args.dotfiles {
        Some(d) => {
            push_string(&mut cmd, "--volume");
            push_owned(&mut cmd, concat(d.as_str(), ":/dotfiles:ro,nocopy"));
        },
        None => {},
    }
    // the context directory
    match &cli_args.build_dir {
        Some(b) => push_string(&mut cmd, b.as_str()),
        None => push_string(&mut cmd, "."),
    }
    proof {
        assert forall|fs: spec_fn(Seq<char>) -> Option<Option<Seq<char>>>| probe_agrees(*probe, fs) implies
            (match build_file(cli_args.containerfile, fs) {
                None => false,
                Some(f) => cmd.deep_view() == build_args(*cli_args, last_component(cwd@), f, build_tag(cli_args.tag, now@)),
            }) by {
            let f = build_file(cli_args.containerfile, fs)->0;
            assert(cmd.deep_view() =~= build_args(*cli_args, last_component(cwd@), f, build_tag(cli_args.tag, now@)));
        }
    }
    Some(cmd)
}

/// The engine arguments that build an image (see `build_image_args`), with
/// the current local time (`YYYYmmddTHHMMSS`) for a missing or empty tag:
/// they hold for some text of that shape.
pub fn build_image<P: Fn(&str) -> PathKind>(cli_args: &CmdImageBuildArgs, cwd: &str, probe: &P) -> (r: Option<Vec<String>>)
    requires
        forall|x: &str| #[trigger] probe.requires((x,)),
    ensures
        forall|fs: spec_fn(Seq<char>) -> Option<Option<Seq<char>>>| probe_agrees(*probe, fs) ==>
            match build_file(cli_args.containerfile, fs) {
                None => r is None,
                Some(f) => r matches Some(v) && exists|now: Seq<char>| time_tag_shape(now) &&
                    v.deep_view() == #[trigger] build_args(*cli_args, last_component(cwd@), f, build_tag(cli_args.tag, now)),
            },
{
    // basically ISO8601 without special characters
    let now = local_time_tag();
    let r = build_image_args(cli_args, cwd, now.as_str(), probe);
    proof {
        assert forall|fs: spec_fn(Seq<char>) -> Option<Option<Seq<char>>>| probe_agrees(*probe, fs) implies
            (match build_file(cli_args.containerfile, fs) {
                None => r is None,
                Some(f) => r matches Some(v) && exists|n: Seq<char>| time_tag_shape(n) &&
                    v.deep_view() == #[trigger] build_args(*cli_args, last_component(cwd@), f, build_tag(cli_args.tag, n)),
            }) by {
            if let Some(f) = build_file(cli_args.containerfile, fs) {
                assert(r->0.deep_view() == build_args(*cli_args, last_component(cwd@), f, build_tag(cli_args.tag, now@)));
            }
        }
    }
    r
}

} // verus!
