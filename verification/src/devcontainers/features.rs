//! Everything that has to do with devcontainer features
use vstd::prelude::*;
use base64::Engine;
use crate::command_ext::CommandLine;
use crate::features::{git_clone, split_at_tag, split_tag};
use crate::paths::{join_path, path_join};
use crate::text::{copy_str, has_prefix, push_str, starts_with, str_suffix};
use crate::vars::opt_view;

verus! {

/// Name of the manifest of a feature.
pub const FEATURE_MANIFEST_FILENAME: &'static str = "devcontainer-feature.json";

/// Path to a feature, local, remote, OCI or not
#[derive(Debug, Clone, PartialEq, Eq)]
pub enum FeaturePath {
    /// Feature contained on local filesystem
    Local(String),

    /// Feature in a git repository, at an optional branch or tag
    Git {
        url: String,
        tag: Option<String>,
    },

    /// Feature published as an OCI artifact
    OCI {
        repository: String,
        namespace: String,
        tag: Option<String>,
    },
}

/// The model of a feature path (the OCI case with its repository,
/// namespace and tag).
pub ghost enum DevFeatureModel {
    Local(Seq<char>),
    Git(Seq<char>, Option<Seq<char>>),
    Oci(Seq<char>, Seq<char>, Option<Seq<char>>),
}

impl View for FeaturePath {
    type V = DevFeatureModel;

    open spec fn view(&self) -> DevFeatureModel {
        match self {
            FeaturePath::Local(p) => DevFeatureModel::Local(p@),
            FeaturePath::Git { url, tag } => DevFeatureModel::Git(url@, opt_view(*tag)),
            FeaturePath::OCI { repository, namespace, tag } => DevFeatureModel::Oci(repository@, namespace@, opt_view(*tag)),
        }
    }
}

/// The feature a text names: a local path when it starts with `./` or `/`;
/// a git repository after `git://`, or one whose URL starts with `git@`
/// (each with a branch or tag after `#`); else none.
pub open spec fn dev_parse_model(s: Seq<char>) -> Option<DevFeatureModel> {
    if has_prefix(s, "./"@) || has_prefix(s, "/"@) {
        Some(DevFeatureModel::Local(s))
    } else if has_prefix(s, "git://"@) {
        let (url, tag) = split_tag(s.subrange(6, s.len() as int));
        Some(DevFeatureModel::Git(url, tag))
    } else if has_prefix(s, "git@"@) {
        let (url, tag) = split_tag(s);
        Some(DevFeatureModel::Git(url, tag))
    } else {
        None
    }
}

impl FeaturePath {
    /// Parses a feature path (see `dev_parse_model`); the error is the message.
    pub fn parse(input: &str) -> (r: Result<Self, String>)
        ensures
            match dev_parse_model(input@) {
                Some(m) => r matches Ok(f) && f@ == m,
                None => r matches Err(e) && e@ == "Invalid URI for feature"@,
            },
    {
        if starts_with(input, "./") || starts_with(input, "/") {
            Ok(Self::Local(copy_str(input)))
        } else if starts_with(input, "git://") {
            proof {
                reveal_strlit("git://");
            }
            let rest = str_suffix(input, 6);
            // split at `#` to allow specifying the branch/tag
            let (url, tag) = split_at_tag(rest.as_str());
            Ok(Self::Git { url, tag })
        } else if starts_with(input, "git@") {
            // split at `#` to allow specifying the branch/tag
            let (url, tag) = split_at_tag(input);
            Ok(Self::Git { url, tag })
        } else {
            Err(copy_str("Invalid URI for feature"))
        }
    }

    /// Variant of the parse command compatible with clap.
    pub fn parse_cli(input: &str) -> (r: Result<Self, String>)
        ensures
            match dev_parse_model(input@) {
                Some(m) => r matches Ok(f) && f@ == m,
                None => r matches Err(e) && e@ == "Invalid URI for feature"@,
            },
    {
        Self::parse(input)
    }
}

/// A git URL read back from `git://` and the URL gives the URL, when it has
/// no `#`.
pub proof fn law_git_url_read_back(url: Seq<char>)
    requires
        !url.contains('#'),
    ensures
        dev_parse_model("git://"@ + url) == Some(DevFeatureModel::Git(url, None)),
{
    reveal_strlit("git://");
    reveal_strlit("./");
    reveal_strlit("/");
    let s = "git://"@ + url;
    assert(s[0] == 'g');
    assert(s.subrange(0, 1)[0] == 'g');
    assert(s.len() >= 2 ==> s.subrange(0, 2)[0] == 'g');
    assert("./"@[0] == '.');
    assert("/"@[0] == '/');
    assert(!has_prefix(s, "./"@));
    assert(!has_prefix(s, "/"@));
    assert(s.subrange(0, 6) =~= "git://"@);
    let rest = s.subrange(6, s.len() as int);
    assert(rest =~= url);
    crate::text::lemma_index_of_from(rest, '#', 0);
    if crate::text::index_of(rest, '#') < rest.len() {
        assert(url.contains('#'));
    }
}

/// The text of a standard base64 encoding (with padding) of the UTF-8 bytes
/// of `text`.
pub uninterp spec fn base64_standard(text: Seq<char>) -> Seq<char>;

/// Calls `encode` of the `BASE64_STANDARD` engine of base64 on the UTF-8
/// bytes of `text`.
#[verifier::external_body]
fn encode_standard(text: &str) -> (r: String)
    requires
        text@.len() < usize::MAX / 8,
    ensures
        r@ == base64_standard(text@),
{
    base64::prelude::BASE64_STANDARD.encode(text)
}

/// This is a feature that was already fetched, and exists physically
#[derive(Debug, Clone, PartialEq)]
pub struct Feature {
    /// Where the feature comes from.
    pub feature_path: FeaturePath,
    /// The directory that holds it.
    pub path: String,
    /// Whether it has a manifest.
    pub is_oci: bool,
}

/// How to obtain a feature: its directory, and the command that clones it
/// there (for a git repository).
#[derive(Debug, Clone)]
pub struct DevFeatureFetch {
    /// The directory of the feature.
    pub path: String,
    /// The command that clones it.
    pub clone: Option<CommandLine>,
}

impl Feature {
    /// Where the feature is kept: a local feature in place; a git feature
    /// with a tag in `cache_dir`, else in `temp_dir`, named by the URL (and
    /// the tag) encoded in base64, and cloned there.
    pub fn cache_plan(feature_path: &FeaturePath, cache_dir: &str, temp_dir: &str) -> (r: DevFeatureFetch)
        requires
            !(feature_path is OCI),
            feature_path matches FeaturePath::Git { url, tag } ==> url@.len() < usize::MAX / 8
                && (tag matches Some(t) ==> t@.len() < usize::MAX / 8),
        ensures
            match feature_path@ {
                DevFeatureModel::Local(p) => r.path@ == p && r.clone is None,
                DevFeatureModel::Git(url, tag) => {
                    &&& r.path@ == match tag {
                        Some(t) => path_join(cache_dir@, base64_standard(url) + "_"@ + base64_standard(t)),
                        None => path_join(temp_dir@, base64_standard(url)),
                    }
                    &&& r.clone matches Some(c) && c.program@ == "git"@ && c.args.deep_view() == seq!["clone"@, "--depth"@, "1"@]
                        + (match tag { Some(t) => seq!["--branch"@, t], None => Seq::<Seq<char>>::empty() })
                        + seq!["--"@, url, r.path@]
                },
                DevFeatureModel::Oci(_, _, _) => false,
            },
    {
        match feature_path {
            // do not copy local features
            FeaturePath::Local(p) => DevFeatureFetch { path: copy_str(p.as_str()), clone: None },
            FeaturePath::Git { url, tag } => {
                // use url and tag encoded as base64 for cache
                let path = match tag {
                    Some(t) => {
                        let mut n = encode_standard(url.as_str());
                        push_str(&mut n, "_");
                        let e = encode_standard(t.as_str());
                        push_str(&mut n, e.as_str());
                        join_path(cache_dir, n.as_str())
                    },
                    None => {
                        let n = encode_standard(url.as_str());
                        join_path(temp_dir, n.as_str())
                    },
                };
                let clone = match tag {
                    Some(t) => git_clone(path.as_str(), url.as_str(), Some(t.as_str())),
                    None => git_clone(path.as_str(), url.as_str(), None),
                };
                DevFeatureFetch { path, clone: Some(clone) }
            },
            FeaturePath::OCI { .. } => DevFeatureFetch { path: String::new(), clone: None },
        }
    }

    /// The path of the manifest of the feature.
    pub fn manifest_path(&self) -> (r: String)
        ensures
            r@ == path_join(self.path@, FEATURE_MANIFEST_FILENAME@),
    {
        join_path(self.path.as_str(), FEATURE_MANIFEST_FILENAME)
    }
}

} // verus!
