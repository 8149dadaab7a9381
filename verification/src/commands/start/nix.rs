//! Building a nix source of a container: the commands and how their output
//! is read.
use vstd::prelude::*;
use crate::command_ext::{exit_code_byte, lines_of, split_lines, strict_text, CommandLine, CommandOutput, CommandOutputExt};
use crate::engine::label_lookup;
use crate::paths::{join_path, path_join};
use crate::text::{concat3, copy_str, push_string};

verus! {

/// Why building a nix source failed.
#[derive(Debug, Clone, PartialEq, Eq)]
pub enum NixError {
    /// The nix file does not exist (its path).
    FileMissing(String),
    /// The directory holds no flake (its path).
    FlakeMissing(String),
    /// The build exited with this code.
    Failed(u8),
    /// The build printed something that is not UTF-8.
    NotUtf8,
    /// The build printed nothing.
    Empty,
    /// The flake build printed no JSON list of builds.
    BadJson,
    /// The first build of the flake has no `out` output.
    NoOut,
}

/// The command that builds the nix file `path`.
pub open spec fn file_build_args(path: Seq<char>) -> Seq<Seq<char>> {
    seq!["build"@, "--no-link"@, "--file"@, path]
}

/// The command that builds the output `spec` of the flake in `path`.
pub open spec fn flake_build_args(path: Seq<char>, spec: Seq<char>) -> Seq<Seq<char>> {
    seq!["build"@, "--no-link"@, path + "#"@ + spec]
}

/// The command that builds the nix file `path`, which must exist.
pub fn evaluate_file(path: &str, exists: bool) -> (r: Result<CommandLine, NixError>)
    ensures
        !exists ==> (r matches Err(NixError::FileMissing(p)) && p@ == path@),
        exists ==> (r matches Ok(c) && c.program@ == "nix"@ && c.args.deep_view() == file_build_args(path@)),
{
    if !exists {
        return Err(NixError::FileMissing(copy_str(path)));
    }
    // nix build supports non-flake evaluation
    let mut args: Vec<String> = Vec::new();
    push_string(&mut args, "build");
    push_string(&mut args, "--no-link");
    push_string(&mut args, "--file");
    push_string(&mut args, path);
    assert(args.deep_view() =~= file_build_args(path@));
    Ok(CommandLine { program: copy_str("nix"), args })
}

/// The file whose existence marks a flake in `path`.
pub fn flake_file(path: &str) -> (r: String)
    ensures
        r@ == path_join(path@, "flake.nix"@),
{
    join_path(path, "flake.nix")
}

/// The command that builds the output `spec` of the flake in `path`, which
/// must hold a flake.
pub fn evaluate_flake(path: &str, spec: &str, flake_exists: bool) -> (r: Result<CommandLine, NixError>)
    ensures
        !flake_exists ==> (r matches Err(NixError::FlakeMissing(p)) && p@ == path@),
        flake_exists ==> (r matches Ok(c) && c.program@ == "nix"@ && c.args.deep_view() == flake_build_args(path@, spec@)),
{
    if !flake_exists {
        return Err(NixError::FlakeMissing(copy_str(path)));
    }
    let mut args: Vec<String> = Vec::new();
    push_string(&mut args, "build");
    push_string(&mut args, "--no-link");
    crate::text::push_owned(&mut args, concat3(path, "#", spec));
    assert(args.deep_view() =~= flake_build_args(path@, spec@));
    Ok(CommandLine { program: copy_str("nix"), args })
}

/// The result of building a nix file: the last line the build printed.
pub fn file_build_result(output: &CommandOutput) -> (r: Result<String, NixError>)
    ensures
        output.status.code != Some(0i32) ==> r == Err::<String, NixError>(NixError::Failed(exit_code_byte(output.status.code))),
        output.status.code == Some(0i32) && !vstd::utf8::valid_utf8(output.stdout@) ==> r == Err::<String, NixError>(NixError::NotUtf8),
        output.status.code == Some(0i32) && vstd::utf8::valid_utf8(output.stdout@) ==> {
            let lines = lines_of(vstd::utf8::decode_utf8(output.stdout@));
            &&& lines.len() == 0 ==> r == Err::<String, NixError>(NixError::Empty)
            &&& lines.len() > 0 ==> (r matches Ok(p) && p@ == lines.last())
        },
{
    if !output.status.success() {
        return Err(NixError::Failed(output.status.get_code()));
    }
    let text = match strict_text(&output.stdout) {
        Some(t) => t,
        None => return Err(NixError::NotUtf8),
    };
    let lines = split_lines(text.as_str());
    if lines.len() == 0 {
        return Err(NixError::Empty);
    }
    let last = lines.len() - 1;
    Ok(copy_str(lines[last].as_str()))
}

/// The output path of a flake build: the `out` output of the first build that
/// `nix build --json` reports (each build given by its outputs, name and path).
pub fn out_path(builds: &Vec<Vec<(String, String)>>) -> (r: String)
    requires
        builds.len() > 0,
        label_lookup(builds@[0]@, "out"@) is Some,
    ensures
        Some(r@) == label_lookup(builds@[0]@, "out"@),
{
    let outputs = &builds[0];
    assert(outputs@ == builds@[0]@);
    let mut i: usize = 0;
    assert(outputs@.subrange(0, outputs@.len() as int) =~= outputs@);
    while i < outputs.len()
        invariant
            i <= outputs.len(),
            label_lookup(outputs@, "out"@) is Some,
            outputs@ == builds@[0]@,
            label_lookup(outputs@, "out"@) == label_lookup(outputs@.subrange(i as int, outputs@.len() as int), "out"@),
        decreases outputs.len() - i,
    {
        let ghost rest = outputs@.subrange(i as int, outputs@.len() as int);
        assert(rest[0] == outputs@[i as int]);
        if crate::text::str_eq(outputs[i].0.as_str(), "out") {
            assert(rest.len() > 0);
            assert(label_lookup(rest, "out"@) == Some(rest[0].1@));
            return copy_str(outputs[i].1.as_str());
        }
        assert(rest.drop_first() =~= outputs@.subrange(i + 1, outputs@.len() as int));
        i = i + 1;
    }
    assert(outputs@.subrange(i as int, outputs@.len() as int) =~= Seq::<(String, String)>::empty());
    String::new()
}

/// The output `out` among the outputs of a build (name and path).
fn out_of(outputs: &Vec<(String, String)>) -> (r: Option<String>)
    ensures
        match label_lookup(outputs@, "out"@) {
            Some(p) => r matches Some(s) && s@ == p,
            None => r is None,
        },
{
    let mut i: usize = 0;
    assert(outputs@.subrange(0, outputs@.len() as int) =~= outputs@);
    while i < outputs.len()
        invariant
            i <= outputs.len(),
            label_lookup(outputs@, "out"@) == label_lookup(outputs@.subrange(i as int, outputs@.len() as int), "out"@),
        decreases outputs.len() - i,
    {
        let ghost rest = outputs@.subrange(i as int, outputs@.len() as int);
        assert(rest[0] == outputs@[i as int]);
        if crate::text::str_eq(outputs[i].0.as_str(), "out") {
            return Some(copy_str(outputs[i].1.as_str()));
        }
        assert(rest.drop_first() =~= outputs@.subrange(i + 1, outputs@.len() as int));
        i = i + 1;
    }
    assert(outputs@.subrange(i as int, outputs@.len() as int) =~= Seq::<(String, String)>::empty());
    None
}

/// The result of building a flake, from what the build gave (`output`) and
/// its standard output read as the JSON list of builds, each given by its
/// outputs (`builds`, `None` when it is no such JSON): the build must
/// succeed, and the result is the `out` output of the first build.
pub fn flake_build_result(output: &CommandOutput, builds: &Option<Vec<Vec<(String, String)>>>) -> (r: Result<String, NixError>)
    ensures
        output.status.code != Some(0i32) ==> r == Err::<String, NixError>(NixError::Failed(exit_code_byte(output.status.code))),
        output.status.code == Some(0i32) ==> match builds {
            None => r == Err::<String, NixError>(NixError::BadJson),
            Some(b) => if b.len() > 0 && label_lookup(b@[0]@, "out"@) is Some {
                r matches Ok(p) && Some(p@) == label_lookup(b@[0]@, "out"@)
            } else {
                r == Err::<String, NixError>(NixError::NoOut)
            },
        },
{
    if !output.status.success() {
        return Err(NixError::Failed(output.status.get_code()));
    }
    match builds {
        None => Err(NixError::BadJson),
        Some(b) => {
            if b.len() == 0 {
                return Err(NixError::NoOut);
            }
            assert(b[0]@ == b@[0]@);
            match out_of(&b[0]) {
                Some(p) => Ok(p),
                None => Err(NixError::NoOut),
            }
        },
    }
}

} // verus!
