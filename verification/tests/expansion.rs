use std::collections::HashMap;

use arcam::vars::{expand_vars, expand_vars_map, ExpandError};

fn map(pairs: &[(&str, &str)]) -> HashMap<String, String> {
    pairs.iter().map(|(k, v)| (k.to_string(), v.to_string())).collect()
}

#[test]
fn var_expansion() {
    assert_eq!(
        expand_vars_map(
            "One !#F# $# @{  } $one ${two} ${three:-} $four ${four:?} five",
            &map(&[("one", "1"), ("two", "2"), ("three", "3"), ("four", "4")]),
        )
        .unwrap(),
        "One !#F# $# @{  } 1 2 3 4 4 five".to_owned()
    );

    // make sure by default it expands to nothing
    assert_eq!(expand_vars_map("$one ${one} ${one:-2}", &map(&[])).unwrap(), "  2".to_owned());

    // make sure it errors out if empty
    assert!(expand_vars_map("${one:?}", &map(&[])).is_err());

    assert_eq!(expand_vars_map("/${one:?}/", &map(&[("one", "1")])).unwrap(), "/1/".to_owned());

    assert_eq!(
        expand_vars_map("cd $HOME/.config", &map(&[("HOME", "/home/user")])).unwrap(),
        "cd /home/user/.config".to_owned()
    );

    assert_eq!(
        expand_vars_map("cd $HOME/.config/${CFG_DIR:-arcam}/config.toml", &map(&[("HOME", "/home/user")])).unwrap(),
        "cd /home/user/.config/arcam/config.toml".to_owned()
    );

    assert_eq!(expand_vars_map("/$${x}/$$xx", &map(&[])).unwrap(), "/${x}/$xx".to_owned());
}

#[test]
fn expansion_error_names_the_variable() {
    assert_eq!(expand_vars_map("a ${HOME:?} b", &map(&[])), Err(ExpandError::Undefined("HOME".to_string())));
}

#[test]
fn expansion_plain_text_is_unchanged() {
    assert_eq!(expand_vars_map("no variables here {}", &map(&[("x", "1")])).unwrap(), "no variables here {}");
}

#[test]
fn expansion_escaped_dollar() {
    assert_eq!(expand_vars_map("$$HOME", &map(&[("HOME", "/h")])).unwrap(), "$HOME");
}

#[test]
fn expansion_default_only_when_undefined() {
    assert_eq!(expand_vars_map("${A:-x}", &map(&[("A", "set")])).unwrap(), "set");
    assert_eq!(expand_vars_map("${A:-x}", &map(&[])).unwrap(), "x");
}

#[test]
fn expansion_with_a_function() {
    let r = expand_vars("$USER@${HOST:-box}", |k: &str| if k == "USER" { Some("me".to_string()) } else { None });
    assert_eq!(r.unwrap(), "me@box");
}

#[test]
fn expansion_word_boundary() {
    // a name ends where the word ends
    assert_eq!(expand_vars_map("$a-b", &map(&[("a", "1"), ("a-b", "2")])).unwrap(), "1-b");
}
