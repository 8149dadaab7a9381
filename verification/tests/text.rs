use arcam::command_ext::{split_lines, CommandOutput, ExitInfo};
use arcam::commands::start::nix::file_build_result;
use arcam::config::SourceV1;
use arcam::engine::{Engine, Podman};
use arcam::prompt::{prompt_answer, prompt_text};
use arcam::text::{
    concat3, contains_str, join_strings, parse_u32, replace_all, split_char, trim, u64_to_string,
};

#[test]
fn trimming() {
    assert_eq!(trim("  a b \t\n"), "a b");
    assert_eq!(trim("\u{3000}x\u{a0}"), "x");
    assert_eq!(trim(" \n "), "");
    assert_eq!(trim(&trim(" x ")), trim(" x "));
}

#[test]
fn splitting() {
    assert_eq!(split_char("a:b::c", ':'), vec!["a", "b", "", "c"]);
    assert_eq!(split_char("", ':'), vec![""]);
    assert_eq!(split_lines("x\r\ny\n"), vec!["x", "y"]);
    assert_eq!(split_lines(""), Vec::<String>::new());
}

#[test]
fn replacing_and_searching() {
    assert_eq!(replace_all("Vec<Vec<u8>>", "Vec<", "Array<"), "Array<Array<u8>>");
    assert_eq!(replace_all("aaa", "aa", "b"), "ba");
    assert!(contains_str("x @skip y", "@skip"));
    assert!(!contains_str("@ski", "@skip"));
}

#[test]
fn numbers_and_quotes() {
    assert_eq!(parse_u32("4294967295"), Some(u32::MAX));
    assert_eq!(parse_u32("4294967296"), None);
    assert_eq!(parse_u32("+7"), Some(7));
    assert_eq!(parse_u32(""), None);
    assert_eq!(u64_to_string(1234), "1234");
    assert_eq!(SourceV1::Image("a\"b".to_string()).describe(), "Image \"a\\\"b\"");
    assert_eq!(join_strings(&vec!["a".to_string(), "b".to_string()], ", "), "a, b");
    assert_eq!(concat3("a", "b", "c"), "abc");
}

#[test]
fn text_of_bytes() {
    let out = |b: Vec<u8>| CommandOutput { status: ExitInfo { code: Some(0) }, stdout: b, stderr: vec![] };
    assert_eq!(Podman.get_containers(&out(vec![b'o', b'k', 0xff])), vec!["ok\u{fffd}".to_string()]);
    assert!(file_build_result(&out(vec![0xff])).is_err());
    assert_eq!(file_build_result(&out(b"fine\n".to_vec())).unwrap(), "fine");
}

#[test]
fn lower_case_and_prompt() {
    assert!(prompt_answer("YeS"));
    assert_eq!(prompt_text("Kill?"), "Kill? [y/N] ");
    assert!(prompt_answer(" Y\n"));
    assert!(prompt_answer("yes"));
    assert!(!prompt_answer("yess"));
    assert!(!prompt_answer(""));
}

#[test]
fn prompt_answer_ignores_case() {
    assert!(prompt_answer("YES\n"));
    assert!(prompt_answer("Y"));
    assert!(!prompt_answer("NO"));
}

#[test]
fn file_stems() {
    assert_eq!(arcam::paths::file_stem("./configs/dev.toml"), "dev");
    assert_eq!(arcam::paths::file_stem("/a/b.tar.gz"), "b.tar");
    assert_eq!(arcam::paths::file_stem(".arcam.toml"), ".arcam");
    assert_eq!(arcam::paths::file_stem("/x/.bashrc"), ".bashrc");
    assert_eq!(arcam::paths::file_stem("plain"), "plain");
}
