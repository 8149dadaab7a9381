//! What the library learns of the host: files, environment variables and
//! random values. Files and variables come from functions that the caller
//! hands in; contracts speak of any model they agree with.
use vstd::prelude::*;
use rand::distr::SampleString;
use crate::vars::{getter_agrees, opt_view};

verus! {

/// What is found at a path on the host.
#[derive(Debug, Clone)]
pub enum PathKind {
    /// Nothing.
    Missing,
    /// Something that is not a directory (a file, a socket, a device).
    Other,
    /// A directory, with its canonical (absolute, resolved) path.
    Dir(String),
}

/// The model of what is found at a path: `None` for nothing, `Some(None)`
/// for something that is not a directory, `Some(Some(c))` for a directory
/// with canonical path `c`.
pub open spec fn kind_view(k: PathKind) -> Option<Option<Seq<char>>> {
    match k {
        PathKind::Missing => None,
        PathKind::Other => Some(None),
        PathKind::Dir(c) => Some(Some(c@)),
    }
}

/// Every answer of `probe` agrees with the model `fs` of the file system.
pub open spec fn probe_agrees<P: Fn(&str) -> PathKind>(probe: P, fs: spec_fn(Seq<char>) -> Option<Option<Seq<char>>>) -> bool {
    forall|x: &str, y: PathKind| #[trigger] call_ensures(probe, (x,), y) ==> kind_view(y) == fs(x@)
}

/// Something exists at `p` in the model `fs`.
pub open spec fn exists_in(fs: spec_fn(Seq<char>) -> Option<Option<Seq<char>>>, p: Seq<char>) -> bool {
    fs(p) is Some
}

/// Asks `probe` whether something exists at `path`.
pub fn path_exists<P: Fn(&str) -> PathKind>(probe: &P, path: &str) -> (r: bool)
    requires
        forall|x: &str| #[trigger] probe.requires((x,)),
    ensures
        forall|fs: spec_fn(Seq<char>) -> Option<Option<Seq<char>>>| probe_agrees(*probe, fs) ==> r == exists_in(fs, path@),
{
    let k = probe(path);
    proof {
        assert(call_ensures(*probe, (path,), k));
    }
    match k {
        PathKind::Missing => false,
        _ => true,
    }
}

/// An ASCII letter or digit.
pub open spec fn is_ascii_alnum(c: char) -> bool {
    ('a' <= c && c <= 'z') || ('A' <= c && c <= 'Z') || ('0' <= c && c <= '9')
}

/// Calls `rand::random::<u64>()`: a number drawn from the thread generator of
/// the rand crate. Nothing is promised of its value.
#[verifier::external_body]
pub(crate) fn random_u64() -> (r: u64) {
    rand::random::<u64>()
}

/// Calls `rand::random::<u32>()`: a number drawn from the thread generator of
/// the rand crate. Nothing is promised of its value.
#[verifier::external_body]
pub(crate) fn random_u32() -> (r: u32) {
    rand::random::<u32>()
}

/// Calls `SampleString::sample_string` of rand's `Alphanumeric` distribution
/// with the thread generator: `len` characters, each an ASCII letter or digit,
/// drawn at random.
#[verifier::external_body]
pub(crate) fn random_alnum(len: usize) -> (r: String)
    ensures
        r@.len() == len,
        forall|i: int| 0 <= i < len ==> is_ascii_alnum(#[trigger] r@[i]),
{
    rand::distr::Alphanumeric.sample_string(&mut rand::rng(), len)
}


/// Asks `env` for the variable `key`.
pub fn env_get<E: Fn(&str) -> Option<String>>(env: &E, key: &str) -> (r: Option<String>)
    requires
        forall|x: &str| #[trigger] env.requires((x,)),
    ensures
        forall|envs: spec_fn(Seq<char>) -> Option<Seq<char>>| getter_agrees(*env, envs) ==> opt_view(r) == envs(key@),
{
    let v = env(key);
    proof {
        assert(call_ensures(*env, (key,), v));
    }
    v
}

} // verus!
