use arcam::consts::{version_line, VERSION};

#[test]
fn test_utils_test_sanity() {
    assert_eq!(version_line(), format!("arcam {}\n", VERSION));
}

#[test]
fn tests_test_sanity() {
    assert_eq!(version_line(), format!("arcam {}\n", VERSION));
}
