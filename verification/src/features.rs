//! Features: scripts that customize a container, from a local directory or
//! from a git repository.
use vstd::prelude::*;
use base64::Engine;
use crate::command_ext::CommandLine;
use crate::paths::{join_path, path_join};
use crate::text::{debug_quoted, str_debug, chars_of, copy_str, has_prefix, index_of, index_of_char, lemma_index_of_first, lemma_index_of_from, push_str, push_string, starts_with, str_suffix, string_of_range};
use crate::vars::opt_view;

verus! {

/// Path to a feature, local or remote
#[derive(Debug, Clone, PartialEq, Eq)]
pub enum FeaturePath {
    /// Feature contained on local filesystem
    Local(String),

    /// Feature in a git repository, at an optional branch or tag
    Git {
        url: String,
        tag: Option<String>,
    },
}

/// The model of a feature path.
pub ghost enum FeatureModel {
    Local(Seq<char>),
    Git(Seq<char>, Option<Seq<char>>),
}

impl View for FeaturePath {
    type V = FeatureModel;

    open spec fn view(&self) -> FeatureModel {
        match self {
            FeaturePath::Local(p) => FeatureModel::Local(p@),
            FeaturePath::Git { url, tag } => FeatureModel::Git(url@, opt_view(*tag)),
        }
    }
}

/// Why a feature path is refused.
#[derive(Debug, Clone, PartialEq, Eq)]
pub enum FeatureError {
    /// Neither a local path nor a git URL.
    InvalidUri,
}

/// `s` split at its first `#`: what comes before, and what comes after if
/// there is a `#`.
pub open spec fn split_tag(s: Seq<char>) -> (Seq<char>, Option<Seq<char>>) {
    let k = index_of(s, '#');
    if k < s.len() {
        (s.subrange(0, k), Some(s.subrange(k + 1, s.len() as int)))
    } else {
        (s, None)
    }
}

/// The feature a text names: a local path when it starts with `.` or `/`,
/// a git repository after `git+` (with a branch or tag after `#`), else none.
pub open spec fn parse_model(s: Seq<char>) -> Option<FeatureModel> {
    if has_prefix(s, "."@) || has_prefix(s, "/"@) {
        Some(FeatureModel::Local(s))
    } else if has_prefix(s, "git+"@) {
        let (url, tag) = split_tag(s.subrange(4, s.len() as int));
        Some(FeatureModel::Git(url, tag))
    } else {
        None
    }
}

/// The text of a feature path: the local path, or `git+`, the URL, `#` and
/// the tag (empty when there is none).
pub open spec fn describe_model(m: FeatureModel) -> Seq<char> {
    match m {
        FeatureModel::Local(p) => p,
        FeatureModel::Git(url, tag) => "git+"@ + url + "#"@ + match tag {
            Some(t) => t,
            None => Seq::empty(),
        },
    }
}

/// Splits `s` at its first `#`.
pub fn split_at_tag(s: &str) -> (r: (String, Option<String>))
    ensures
        (r.0@, opt_view(r.1)) == split_tag(s@),
{
    let cs = chars_of(s);
    let k = index_of_char(&cs, '#');
    proof {
        lemma_index_of_from(s@, '#', 0);
    }
    if k < cs.len() {
        (string_of_range(&cs, 0, k), Some(string_of_range(&cs, k + 1, cs.len())))
    } else {
        (copy_str(s), None)
    }
}

/// The message of a refused feature path.
pub open spec fn invalid_uri_message() -> Seq<char> {
    "Invalid URI for feature"@
}

impl FeaturePath {
    /// Parses a feature path (see `parse_model`).
    pub fn parse(input: &str) -> (r: Result<Self, FeatureError>)
        ensures
            match parse_model(input@) {
                Some(m) => r matches Ok(f) && f@ == m,
                None => r == Err::<Self, FeatureError>(FeatureError::InvalidUri),
            },
    {
        if starts_with(input, ".") || starts_with(input, "/") {
            Ok(Self::Local(copy_str(input)))
        } else if starts_with(input, "git+") {
            proof {
                reveal_strlit("git+");
            }
            let rest = str_suffix(input, 4);
            // split at `#` to allow specifying the branch/tag
            let (url, tag) = split_at_tag(rest.as_str());
            Ok(Self::Git { url, tag })
        } else {
            Err(FeatureError::InvalidUri)
        }
    }

    /// Variant of the parse command compatible with clap: the error is its
    /// message.
    pub fn parse_cli(input: &str) -> (r: Result<Self, String>)
        ensures
            match parse_model(input@) {
                Some(m) => r matches Ok(f) && f@ == m,
                None => r matches Err(e) && e@ == invalid_uri_message(),
            },
    {
        match Self::parse(input) {
            Ok(f) => Ok(f),
            Err(_) => Err(copy_str("Invalid URI for feature")),
        }
    }

    /// The text of the feature path (see `describe_model`).
    pub fn describe(&self) -> (r: String)
        ensures
            r@ == describe_model(self@),
    {
        match self {
            Self::Local(x) => copy_str(x.as_str()),
            Self::Git { url, tag } => {
                let mut r = copy_str("git+");
                push_str(&mut r, url.as_str());
                push_str(&mut r, "#");
                match tag {
                    Some(t) => push_str(&mut r, t.as_str()),
                    None => {},
                }
                assert(r@ =~= describe_model(self@));
                r
            },
        }
    }
}

/// Reading the text of a feature path gives back the feature path, for a
/// local path that starts with `.` or `/`, and for a git repository with a
/// tag and a URL without `#`.
pub proof fn law_feature_path_roundtrip(m: FeatureModel)
    requires
        match m {
            FeatureModel::Local(p) => has_prefix(p, "."@) || has_prefix(p, "/"@),
            FeatureModel::Git(url, tag) => tag is Some && !url.contains('#'),
        },
    ensures
        parse_model(describe_model(m)) == Some(m),
{
    match m {
        FeatureModel::Local(p) => {},
        FeatureModel::Git(url, tag) => {
            reveal_strlit("git+");
            reveal_strlit("#");
            reveal_strlit(".");
            reveal_strlit("/");
            let t = tag->0;
            let s = describe_model(m);
            assert(s =~= "git+"@ + url + "#"@ + t);
            assert(s[0] == 'g');
            assert(s.subrange(0, 1)[0] == 'g');
            assert("."@[0] == '.');
            assert("/"@[0] == '/');
            assert(!has_prefix(s, "."@));
            assert(!has_prefix(s, "/"@));
            assert(s.subrange(0, 4) =~= "git+"@);
            let rest = s.subrange(4, s.len() as int);
            assert(rest =~= url + seq!['#'] + t);
            lemma_index_of_from(rest, '#', 0);
            assert(rest[url.len() as int] == '#');
            assert forall|k: int| 0 <= k < url.len() implies rest[k] != '#' by {
                assert(rest[k] == url[k]);
                if url[k] == '#' {
                    assert(url.contains('#'));
                }
            }
            lemma_index_of_first(rest, '#', url.len() as int);
            assert(rest.subrange(0, url.len() as int) =~= url);
            assert(rest.subrange(url.len() as int + 1, rest.len() as int) =~= t);
        },
    }
}

/// The text of a URL-safe base64 encoding without padding of the UTF-8 bytes
/// of `text`.
pub uninterp spec fn base64_url_safe(text: Seq<char>) -> Seq<char>;

/// Calls `encode` of the `BASE64_URL_SAFE_NO_PAD` engine of base64 on the
/// UTF-8 bytes of `text`.
#[verifier::external_body]
fn encode_url_safe(text: &str) -> (r: String)
    requires
        text@.len() < usize::MAX / 8,
    ensures
        r@ == base64_url_safe(text@),
{
    base64::prelude::BASE64_URL_SAFE_NO_PAD.encode(text)
}

/// The directory under `base` where a feature of a git repository is kept:
/// named by the URL encoded in base64, then `_` and the encoded tag when
/// there is one.
pub open spec fn cache_dir_name(url: Seq<char>, tag: Option<Seq<char>>) -> Seq<char> {
    match tag {
        Some(t) => base64_url_safe(url) + "_"@ + base64_url_safe(t),
        None => base64_url_safe(url),
    }
}

/// This is a feature that was already fetched, and exists physically
#[derive(Debug, Clone, PartialEq, Eq)]
pub struct Feature {
    /// Where the feature comes from.
    pub feature_path: FeaturePath,
    /// The directory that holds it.
    pub path: String,
}

/// How to obtain a feature: its directory, and the command that clones it
/// there when it is not there yet.
#[derive(Debug, Clone)]
pub struct FeatureFetch {
    /// The directory of the feature.
    pub path: String,
    /// The command that clones it (for a git repository).
    pub clone: Option<CommandLine>,
}

/// Clones git repository using external git, tag is either a branch or a tag:
/// the command line.
pub fn git_clone(path: &str, repository: &str, tag: Option<&str>) -> (r: CommandLine)
    ensures
        r.program@ == "git"@,
        r.args.deep_view() == seq!["clone"@, "--depth"@, "1"@]
            + (match tag { Some(t) => seq!["--branch"@, t@], None => Seq::<Seq<char>>::empty() })
            + seq!["--"@, repository@, path@],
{
    let mut args: Vec<String> = Vec::new();
    push_string(&mut args, "clone");
    push_string(&mut args, "--depth");
    push_string(&mut args, "1");
    match tag {
        Some(t) => {
            push_string(&mut args, "--branch");
            push_string(&mut args, t);
        },
        None => {},
    }
    push_string(&mut args, "--");
    push_string(&mut args, repository);
    push_string(&mut args, path);
    assert(args.deep_view() =~= seq!["clone"@, "--depth"@, "1"@]
        + (match tag { Some(t) => seq!["--branch"@, t@], None => Seq::<Seq<char>>::empty() })
        + seq!["--"@, repository@, path@]);
    CommandLine { program: copy_str("git"), args }
}

impl Feature {
    /// Where the feature is kept: a local feature in place; a git feature in
    /// `temp_dir` (see `cache_dir_name`), cloned when `present` says it is not
    /// there yet.
    pub fn cache_plan(feature_path: &FeaturePath, temp_dir: &str, present: bool) -> (r: FeatureFetch)
        requires
            feature_path matches FeaturePath::Git { url, tag } ==> url@.len() < usize::MAX / 8
                && (tag matches Some(t) ==> t@.len() < usize::MAX / 8),
        ensures
            match feature_path@ {
                FeatureModel::Local(p) => r.path@ == p && r.clone is None,
                FeatureModel::Git(url, tag) => {
                    &&& r.path@ == path_join(temp_dir@, cache_dir_name(url, tag))
                    &&& if present {
                        r.clone is None
                    } else {
                        r.clone matches Some(c) && c.program@ == "git"@ && c.args.deep_view() == seq!["clone"@, "--depth"@, "1"@]
                            + (match tag { Some(t) => seq!["--branch"@, t], None => Seq::<Seq<char>>::empty() })
                            + seq!["--"@, url, r.path@]
                    }
                },
            },
    {
        match feature_path {
            // do not copy local features
            FeaturePath::Local(p) => FeatureFetch { path: copy_str(p.as_str()), clone: None },
            FeaturePath::Git { url, tag } => {
                // use url and tag encoded as base64 for cache
                let name = match tag {
                    Some(t) => {
                        let mut n = encode_url_safe(url.as_str());
                        push_str(&mut n, "_");
                        let e = encode_url_safe(t.as_str());
                        push_str(&mut n, e.as_str());
                        n
                    },
                    None => encode_url_safe(url.as_str()),
                };
                let path = join_path(temp_dir, name.as_str());
                // clone only if it does not exist to stop downloading same thing twice
                let clone = if present {
                    None
                } else {
                    match tag {
                        Some(t) => Some(git_clone(path.as_str(), url.as_str(), Some(t.as_str()))),
                        None => Some(git_clone(path.as_str(), url.as_str(), None)),
                    }
                };
                FeatureFetch { path, clone }
            },
        }
    }

    /// The feature once fetched into `path`: it must exist (for a local
    /// feature) and hold an `install.sh`.
    pub fn fetched(feature_path: FeaturePath, path: String, exists: bool, has_install: bool) -> (r: Result<Feature, String>)
        ensures
            (feature_path is Local && !exists) ==> (r matches Err(m) && m@ == "Local feature does not exist at "@ + str_debug(path@)),
            (!(feature_path is Local) || exists) && !has_install ==> (r matches Err(m) && m@ == "Feature install script not found in "@ + str_debug(path@)),
            (!(feature_path is Local) || exists) && has_install ==> r == Ok::<Feature, String>(Feature { feature_path, path }),
    {
        let local = match &feature_path {
            FeaturePath::Local(_) => true,
            _ => false,
        };
        if local && !exists {
            let mut m = copy_str("Local feature does not exist at ");
            push_str(&mut m, debug_quoted(path.as_str()).as_str());
            return Err(m);
        }
        if !has_install {
            let mut m = copy_str("Feature install script not found in ");
            push_str(&mut m, debug_quoted(path.as_str()).as_str());
            return Err(m);
        }
        Ok(Feature { feature_path, path })
    }

    /// The command that runs the install script of the feature.
    pub fn command(&self) -> (r: CommandLine)
        ensures
            r.program@ == path_join(self.path@, "install.sh"@),
            r.args@.len() == 0,
    {
        CommandLine { program: join_path(self.path.as_str(), "install.sh"), args: Vec::new() }
    }
}

} // verus!
