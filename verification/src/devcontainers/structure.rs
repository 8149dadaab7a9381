//! Structures of the manifest of a devcontainer feature.
use vstd::prelude::*;

verus! {

/// A string, or an array of strings.
#[derive(Debug, Clone)]
pub enum ArrayOrString {
    String(String),
    Array(Vec<String>),
}

/// This is type that holds a String, Array<String> or Object (which contains String or
/// Array<String>)
///
/// Array: Passed to the OS for execution without going through a shell
/// String: Goes through a shell (it needs to be parsed into command and arguments)
/// Object: All lifecycle scripts have been extended to support object types to allow for parallel execution
/// (the object is held as its entries, each key once)
#[derive(Debug, Clone)]
pub enum ExecCommands {
    String(String),
    Array(Vec<String>),
    Object(Vec<(String, ArrayOrString)>),
}

impl ExecCommands {
    /// Each key of an object occurs once.
    pub open spec fn well_formed(&self) -> bool {
        match self {
            ExecCommands::Object(entries) => forall|i: int, j: int|
                0 <= i < j < entries@.len() ==> #[trigger] entries@[i].0@ != #[trigger] entries@[j].0@,
            _ => true,
        }
    }
}

/// The manifest of a devcontainer feature (`devcontainer-feature.json`), with
/// the values that have no fixed shape held as their JSON text.
#[derive(Debug, Clone)]
pub struct FeatureManifest {
    pub entrypoint: String,

    pub id: String,

    /// The features it depends on: each name with its options (JSON text).
    pub depends_on: Vec<(String, String)>,

    /// The mounts (each a JSON object as text).
    pub mounts: Vec<String>,

    pub name: String,

    /// The options (JSON text).
    pub options: String,

    pub version: String,

    pub on_create_cmd: ExecCommands,

    pub post_create_cmd: ExecCommands,

    pub post_start_cmd: ExecCommands,
}

} // verus!
