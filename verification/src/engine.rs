//! Engine specific abstraction: the command lines an engine runs and how its
//! answers are read.
use vstd::prelude::*;
use crate::command_ext::{lines_of, lossy_text, split_lines, utf8_lossy, CommandOutput};
use crate::text::{str_eq, copy_str, debug_quoted, push_str, str_debug, push_all, push_string, push_owned};

verus! {

/// What the engine reports of a container: its name and its labels.
#[derive(Debug, Clone)]
pub struct ContainerInfo {
    /// Name of the container
    pub name: String,
    /// Labels of the container, each key once
    pub labels: Vec<(String, String)>,
}

/// The value under `key` in a list of pairs (the first match).
pub open spec fn label_lookup(labels: Seq<(String, String)>, key: Seq<char>) -> Option<Seq<char>>
    decreases labels.len(),
{
    if labels.len() == 0 {
        None
    } else if labels[0].0@ == key {
        Some(labels[0].1@)
    } else {
        label_lookup(labels.drop_first(), key)
    }
}

/// No two labels have the same key (as when they come from a map).
pub open spec fn keys_distinct(labels: Seq<(String, String)>) -> bool {
    forall|i: int, j: int| 0 <= i < j < labels.len() ==> #[trigger] labels[i].0@ != #[trigger] labels[j].0@
}

/// Where the keys are distinct, the label found for a key is the value the
/// labels hold for it, wherever it stands.
pub proof fn lemma_label_of_distinct(labels: Seq<(String, String)>, i: int)
    requires
        keys_distinct(labels),
        0 <= i < labels.len(),
    ensures
        label_lookup(labels, labels[i].0@) == Some(labels[i].1@),
    decreases labels.len(),
{
    if i > 0 {
        let rest = labels.drop_first();
        assert(labels[0].0@ != labels[i].0@);
        assert(keys_distinct(rest)) by {
            assert forall|a: int, b: int| 0 <= a < b < rest.len() implies #[trigger] rest[a].0@ != #[trigger] rest[b].0@ by {
                assert(rest[a] == labels[a + 1] && rest[b] == labels[b + 1]);
            }
        }
        assert(rest[i - 1] == labels[i]);
        lemma_label_of_distinct(rest, i - 1);
    }
}

impl ContainerInfo {
    /// The value of a label of the container.
    pub fn label(&self, key: &str) -> (r: Option<String>)
        ensures
            match r {
                Some(v) => label_lookup(self.labels@, key@) == Some(v@),
                None => label_lookup(self.labels@, key@) is None,
            },
    {
        let mut i: usize = 0;
        assert(self.labels@.subrange(0, self.labels@.len() as int) =~= self.labels@);
        while i < self.labels.len()
            invariant
                i <= self.labels.len(),
                label_lookup(self.labels@, key@) == label_lookup(self.labels@.subrange(i as int, self.labels@.len() as int), key@),
            decreases self.labels.len() - i,
        {
            let ghost rest = self.labels@.subrange(i as int, self.labels@.len() as int);
            assert(rest[0] == self.labels@[i as int]);
            if str_eq(self.labels[i].0.as_str(), key) {
                return Some(self.labels[i].1.clone());
            }
            assert(rest.drop_first() =~= self.labels@.subrange(i + 1, self.labels@.len() as int));
            i = i + 1;
        }
        assert(self.labels@.subrange(i as int, self.labels@.len() as int) =~= Seq::<(String, String)>::empty());
        None
    }

    /// Whether the container has a label with this key.
    pub fn has_label(&self, key: &str) -> (r: bool)
        ensures
            r == label_lookup(self.labels@, key@) is Some,
    {
        self.label(key).is_some()
    }
}

/// Configuration part of what podman reports for a container.
#[derive(Debug, Clone)]
pub struct PodmanContainerInfoConfig {
    /// Labels of the container (none when podman reports null)
    pub labels: Vec<(String, String)>,
}

/// What podman reports for a container.
#[derive(Debug, Clone)]
pub struct PodmanContainerInfo {
    /// Name of the container
    pub name: String,
    /// Its configuration
    pub config: PodmanContainerInfoConfig,
}

impl From<PodmanContainerInfo> for ContainerInfo {
    fn from(value: PodmanContainerInfo) -> (r: Self) {
        Self { name: value.name, labels: value.config.labels }
    }
}

impl vstd::std_specs::convert::FromSpecImpl<PodmanContainerInfo> for ContainerInfo {
    open spec fn obeys_from_spec() -> bool {
        true
    }

    open spec fn from_spec(value: PodmanContainerInfo) -> ContainerInfo {
        ContainerInfo { name: value.name, labels: value.config.labels }
    }
}

/// Why an engine could not answer.
#[derive(Debug, Clone, PartialEq, Eq)]
pub enum EngineError {
    /// The check of a container ended with an unexpected code; holds the message.
    ContainerCheck(String),
    /// The check of an image ended with an unexpected code; holds the message.
    ImageCheck(String),
}

/// The answer of an `exists` check: code 0 means yes, 1 means no, anything
/// else is an error.
pub open spec fn exists_answer(code: u8) -> Option<bool> {
    if code == 0 {
        Some(true)
    } else if code == 1 {
        Some(false)
    } else {
        None
    }
}

/// A container engine: the command lines it runs and how its output is read.
pub trait Engine {
    /// Name of the engine executable.
    spec fn spec_name(&self) -> Seq<char>;

    /// Arguments of a command run as root inside a container.
    spec fn spec_exec_args(&self, container: Seq<char>, command: Seq<Seq<char>>) -> Seq<Seq<char>>;

    /// Arguments that list containers with the given labels (and values).
    spec fn spec_list_args(&self, labels: Seq<(Seq<char>, Option<Seq<char>>)>) -> Seq<Seq<char>>;

    /// Arguments that describe containers.
    spec fn spec_inspect_args(&self, containers: Seq<Seq<char>>) -> Seq<Seq<char>>;

    /// Arguments that check whether a container exists.
    spec fn spec_container_exists_args(&self, container: Seq<char>) -> Seq<Seq<char>>;

    /// Arguments that check whether an image exists.
    spec fn spec_image_exists_args(&self, image: Seq<char>) -> Seq<Seq<char>>;

    /// Arguments that pull an image.
    spec fn spec_image_pull_args(&self, image: Seq<char>) -> Seq<Seq<char>>;

    /// Returns formatted name of the engine
    fn name(&self) -> (r: &'static str)
        ensures
            r@ == self.spec_name(),
    ;

    /// Execute command as root inside a container: the arguments.
    fn exec_args(&self, container: &str, command: &Vec<String>) -> (r: Vec<String>)
        requires
            container@.len() > 0,
            command.len() > 0,
        ensures
            r.deep_view() == self.spec_exec_args(container@, command.deep_view()),
    ;

    /// List containers filtered by label, and optionally value: the arguments.
    fn get_containers_args(&self, labels: &Vec<(String, Option<String>)>) -> (r: Vec<String>)
        ensures
            r.deep_view() == self.spec_list_args(labels.deep_view()),
    ;

    /// The names of the listed containers, one per line of the output.
    fn get_containers(&self, output: &CommandOutput) -> (r: Vec<String>)
        ensures
            r.deep_view() == lines_of(utf8_lossy(output.stdout@)),
    ;

    /// Inspect containers: the arguments.
    fn inspect_containers_args(&self, containers: &Vec<String>) -> (r: Vec<String>)
        requires
            containers.len() > 0,
        ensures
            r.deep_view() == self.spec_inspect_args(containers.deep_view()),
    ;

    /// Check if container exists: the arguments.
    fn container_exists_args(&self, container: &str) -> (r: Vec<String>)
        requires
            container@.len() > 0,
        ensures
            r.deep_view() == self.spec_container_exists_args(container@),
    ;

    /// Whether the container exists, from the exit code of the check.
    fn container_exists(&self, container: &str, code: u8) -> (r: Result<bool, EngineError>)
        ensures
            match exists_answer(code) {
                Some(b) => r == Ok::<bool, EngineError>(b),
                None => r matches Err(EngineError::ContainerCheck(m))
                    && m@ == "Error checking if container "@ + str_debug(container@) + " exists"@,
            },
    ;

    /// Check if an image exists: the arguments.
    fn image_exists_args(&self, image: &str) -> (r: Vec<String>)
        ensures
            r.deep_view() == self.spec_image_exists_args(image@),
    ;

    /// Whether the image exists, from the exit code of the check.
    fn image_exists(&self, image: &str, code: u8) -> (r: Result<bool, EngineError>)
        ensures
            match exists_answer(code) {
                Some(b) => r == Ok::<bool, EngineError>(b),
                None => r matches Err(EngineError::ImageCheck(m))
                    && m@ == "Error checking does image "@ + str_debug(image@) + " exist"@,
            },
    ;

    /// Pull an image: the arguments.
    fn image_pull_args(&self, image: &str) -> (r: Vec<String>)
        ensures
            r.deep_view() == self.spec_image_pull_args(image@),
    ;
}

/// Implementation for podman engine manager
#[derive(Debug, Clone, Copy)]
pub struct Podman;

/// The label filter of a container listing.
pub open spec fn label_filter(label: (Seq<char>, Option<Seq<char>>)) -> Seq<char> {
    match label.1 {
        Some(v) => "--filter=label="@ + label.0 + "="@ + v,
        None => "--filter=label="@ + label.0,
    }
}

fn exists_result(code: u8) -> (r: Option<bool>)
    ensures
        r == exists_answer(code),
{
    if code == 0 {
        Some(true)
    } else if code == 1 {
        Some(false)
    } else {
        None
    }
}

impl Engine for Podman {
    open spec fn spec_name(&self) -> Seq<char> {
        "podman"@
    }

    open spec fn spec_exec_args(&self, container: Seq<char>, command: Seq<Seq<char>>) -> Seq<Seq<char>> {
        seq!["exec"@, "--user"@, "root"@, container] + command
    }

    open spec fn spec_list_args(&self, labels: Seq<(Seq<char>, Option<Seq<char>>)>) -> Seq<Seq<char>> {
        seq!["container"@, "ls"@, "--format"@, "{{ .Names }}"@] + labels.map_values(|l: (Seq<char>, Option<Seq<char>>)| label_filter(l))
    }

    open spec fn spec_inspect_args(&self, containers: Seq<Seq<char>>) -> Seq<Seq<char>> {
        seq!["container"@, "inspect"@] + containers
    }

    open spec fn spec_container_exists_args(&self, container: Seq<char>) -> Seq<Seq<char>> {
        seq!["container"@, "exists"@, container]
    }

    open spec fn spec_image_exists_args(&self, image: Seq<char>) -> Seq<Seq<char>> {
        seq!["image"@, "exists"@, image]
    }

    open spec fn spec_image_pull_args(&self, image: Seq<char>) -> Seq<Seq<char>> {
        seq!["image"@, "pull"@, image]
    }

    fn name(&self) -> (r: &'static str) {
        "podman"
    }

    fn exec_args(&self, container: &str, command: &Vec<String>) -> (r: Vec<String>) {
        let mut r: Vec<String> = Vec::new();
        push_string(&mut r, "exec");
        push_string(&mut r, "--user");
        push_string(&mut r, "root");
        push_string(&mut r, container);
        push_all(&mut r, command);
        assert(r.deep_view() =~= self.spec_exec_args(container@, command.deep_view()));
        r
    }

    fn get_containers_args(&self, labels: &Vec<(String, Option<String>)>) -> (r: Vec<String>) {
        let mut r: Vec<String> = Vec::new();
        // just print names of the containers
        push_string(&mut r, "container");
        push_string(&mut r, "ls");
        push_string(&mut r, "--format");
        push_string(&mut r, "{{ .Names }}");
        let ghost head = r.deep_view();
        let ghost lv = labels.deep_view();
        let mut i: usize = 0;
        while i < labels.len()
            invariant
                i <= labels.len(),
                lv == labels.deep_view(),
                r.deep_view() == head + lv.take(i as int).map_values(|l: (Seq<char>, Option<Seq<char>>)| label_filter(l)),
            decreases labels.len() - i,
        {
            let mut f = copy_str("--filter=label=");
            push_str(&mut f, labels[i].0.as_str());
            match &labels[i].1 {
                Some(val) => {
                    push_str(&mut f, "=");
                    push_str(&mut f, val.as_str());
                },
                None => {},
            }
            assert(f@ == label_filter(lv[i as int]));
            push_owned(&mut r, f);
            i = i + 1;
            assert(r.deep_view() =~= head + lv.take(i as int).map_values(|l: (Seq<char>, Option<Seq<char>>)| label_filter(l)));
        }
        assert(lv.take(labels.len() as int) =~= lv);
        r
    }

    fn get_containers(&self, output: &CommandOutput) -> (r: Vec<String>) {
        let text = lossy_text(&output.stdout);
        split_lines(text.as_str())
    }

    fn inspect_containers_args(&self, containers: &Vec<String>) -> (r: Vec<String>) {
        let mut r: Vec<String> = Vec::new();
        push_string(&mut r, "container");
        push_string(&mut r, "inspect");
        push_all(&mut r, containers);
        assert(r.deep_view() =~= self.spec_inspect_args(containers.deep_view()));
        r
    }

    fn container_exists_args(&self, container: &str) -> (r: Vec<String>) {
        let mut r: Vec<String> = Vec::new();
        push_string(&mut r, "container");
        push_string(&mut r, "exists");
        push_string(&mut r, container);
        assert(r.deep_view() =~= self.spec_container_exists_args(container@));
        r
    }

    fn container_exists(&self, container: &str, code: u8) -> (r: Result<bool, EngineError>) {
        match exists_result(code) {
            Some(b) => Ok(b),
            None => {
                let mut m = copy_str("Error checking if container ");
                let q = debug_quoted(container);
                push_str(&mut m, q.as_str());
                push_str(&mut m, " exists");
                Err(EngineError::ContainerCheck(m))
            },
        }
    }

    fn image_exists_args(&self, image: &str) -> (r: Vec<String>) {
        let mut r: Vec<String> = Vec::new();
        push_string(&mut r, "image");
        push_string(&mut r, "exists");
        push_string(&mut r, image);
        assert(r.deep_view() =~= self.spec_image_exists_args(image@));
        r
    }

    fn image_exists(&self, image: &str, code: u8) -> (r: Result<bool, EngineError>) {
        match exists_result(code) {
            Some(b) => Ok(b),
            None => {
                let mut m = copy_str("Error checking does image ");
                let q = debug_quoted(image);
                push_str(&mut m, q.as_str());
                push_str(&mut m, " exist");
                Err(EngineError::ImageCheck(m))
            },
        }
    }

    fn image_pull_args(&self, image: &str) -> (r: Vec<String>) {
        let mut r: Vec<String> = Vec::new();
        push_string(&mut r, "image");
        push_string(&mut r, "pull");
        push_string(&mut r, image);
        assert(r.deep_view() =~= self.spec_image_pull_args(image@));
        r
    }
}

} // verus!
