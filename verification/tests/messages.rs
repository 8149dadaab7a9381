use arcam::commands::init_steps::InitError;
use arcam::commands::start::nix::NixError;
use arcam::commands::start::StartError;
use arcam::commands::CommandError;
use arcam::engine::EngineError;
use arcam::vars::ExpandError;

#[test]
fn error_messages() {
    assert_eq!(ExpandError::Undefined("X".into()).message(), "Error env variable \"X\" is undefined");
    assert_eq!(EngineError::ImageCheck("bad".into()).message(), "bad");
    assert_eq!(CommandError::NotOwned("c".into()).message(), "Container \"c\" is not owned by arcam");
    assert_eq!(CommandError::MissingLabel("c".into(), "l".into()).message(), "Container \"c\" does not have label \"l\"");
    assert_eq!(NixError::Failed(3).message(), "nix build exited with code 3");
    assert_eq!(NixError::FlakeMissing("/p".into()).message(), "Flake not found in \"/p\"");
    assert_eq!(
        StartError::RunningHere("a b".into()).message(),
        "There are containers running in current directory: \"a b\""
    );
    assert_eq!(StartError::NameEmpty.message(), "Container name is empty");
    assert_eq!(StartError::GpuMissing(2).message(), "Could not find card with index 2");
    assert_eq!(StartError::WriteFailed("/f".into(), 1).message(), "Error writing to file \"/f\" in container (1)");
    assert_eq!(StartError::Expand(ExpandError::Undefined("Y".into())).message(), "Error env variable \"Y\" is undefined");
    assert_eq!(StartError::InitFailed("oops".into()).message(), "Stderr from container init: oops");
    assert_eq!(InitError::PasswdFailed(4).message(), "Error while setting passwd for root (4)");
    assert_eq!(InitError::ScriptFailed("/init.d/a".into()).message(), "Script \"/init.d/a\" has failed");
    assert_eq!(InitError::Undefined("HOST_USER is undefined".into()).message(), "HOST_USER is undefined");
}
