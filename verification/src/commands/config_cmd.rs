//! The `config` command: configurations inside images, and inspection.
use vstd::prelude::*;
use crate::cli::{config_arg_parsed, CmdConfigInspectArgs, ConfigArg, ConfigLoad};
use crate::commands::start::steps::{load_config_arg, load_matches};
use crate::config::ConfigV1;
use crate::consts::ARCAM_CONFIG;
use crate::command_ext::{lossy_text, utf8_lossy, CommandOutput};
use crate::context::Context;
use crate::text::{debug_quoted, push_str, push_string, str_debug, copy_str};

verus! {

/// The engine arguments that print the configuration an image carries.
pub open spec fn image_config_args(image: Seq<char>) -> Seq<Seq<char>> {
    seq!["run"@, "--rm"@, "-it"@, "--entrypoint"@, "cat"@, image, ARCAM_CONFIG@]
}

/// The engine arguments that print the configuration an image carries (the
/// image must exist).
pub fn get_image_config_args(image: &str) -> (r: Vec<String>)
    ensures
        r.deep_view() == image_config_args(image@),
{
    let mut r: Vec<String> = Vec::new();
    push_string(&mut r, "run");
    push_string(&mut r, "--rm");
    push_string(&mut r, "-it");
    // basically just cat the file, should be pretty portable
    push_string(&mut r, "--entrypoint");
    push_string(&mut r, "cat");
    push_string(&mut r, image);
    push_string(&mut r, ARCAM_CONFIG);
    assert(r.deep_view() =~= image_config_args(image@));
    r
}

/// Where the configuration to inspect comes from: the file, image or
/// `@config` named on the command line (see `ConfigArg::parse`).
pub fn inspect_source(ctx: &Context, cli_args: &CmdConfigInspectArgs) -> (r: ConfigLoad)
    ensures
        exists|a: ConfigArg| config_arg_parsed(cli_args.config@, a) && #[trigger] load_matches(*ctx, a, r),
{
    let arg = match ConfigArg::parse(cli_args.config.as_str()) {
        Ok(a) => a,
        Err(_) => ConfigArg::Image(copy_str(cli_args.config.as_str())),
    };
    load_config_arg(ctx, &arg)
}

/// The message of a configuration in `source` that does not parse.
pub open spec fn parse_error_message(source: Seq<char>, error: Seq<char>) -> Seq<char> {
    "while parsing config file "@ + str_debug(source) + ": "@ + error
}

/// Inspects a configuration read from `source`, given what parsing it
/// gave (`parsed`): the configuration when its syntax is correct, else the
/// error naming the file and the problem.
pub fn inspect_config(source: &str, parsed: Result<ConfigV1, String>) -> (r: Result<ConfigV1, String>)
    ensures
        match parsed {
            Ok(c) => r == Ok::<ConfigV1, String>(c),
            Err(e) => r matches Err(m) && m@ == parse_error_message(source@, e@),
        },
{
    match parsed {
        Ok(c) => Ok(c),
        Err(e) => {
            let mut m = copy_str("while parsing config file ");
            push_str(&mut m, debug_quoted(source).as_str());
            push_str(&mut m, ": ");
            push_str(&mut m, e.as_str());
            Err(m)
        },
    }
}

/// The message of an image that does not exist.
pub open spec fn image_missing_message(image: Seq<char>) -> Seq<char> {
    "Image "@ + str_debug(image) + " does not exist"@
}

/// The message of an image whose configuration could not be printed.
pub open spec fn extract_failed_message(image: Seq<char>) -> Seq<char> {
    "Failed to extract config from image "@ + str_debug(image)
}

/// After the engine checked that `image` exists (`check`): the engine
/// arguments that print its configuration when the check succeeded, else
/// the error that the image does not exist.
pub fn image_config_next(image: &str, check: &CommandOutput) -> (r: Result<Vec<String>, String>)
    ensures
        check.status.code == Some(0i32) ==> (r matches Ok(v) && v.deep_view() == image_config_args(image@)),
        check.status.code != Some(0i32) ==> (r matches Err(m) && m@ == image_missing_message(image@)),
{
    if check.status.code == Some(0i32) {
        Ok(get_image_config_args(image))
    } else {
        let mut m = copy_str("Image ");
        push_str(&mut m, debug_quoted(image).as_str());
        push_str(&mut m, " does not exist");
        Err(m)
    }
}

/// The configuration that `image` carries, from the output of the engine
/// printing it (`run`): its standard output (invalid UTF-8 replaced) when it
/// succeeded, else the error that it could not be extracted.
pub fn image_config_result(image: &str, run: &CommandOutput) -> (r: Result<String, String>)
    ensures
        run.status.code == Some(0i32) ==> (r matches Ok(t) && t@ == utf8_lossy(run.stdout@)),
        run.status.code != Some(0i32) ==> (r matches Err(m) && m@ == extract_failed_message(image@)),
{
    if run.status.code == Some(0i32) {
        Ok(lossy_text(&run.stdout))
    } else {
        let mut m = copy_str("Failed to extract config from image ");
        push_str(&mut m, debug_quoted(image).as_str());
        Err(m)
    }
}

} // verus!
