use worktree_navigator::version::{current_version, is_dev_build};

#[test]
fn detects_dev_builds() {
    assert!(is_dev_build("1.2.3-dev"));
    assert!(is_dev_build(" 1.2.3-dev "));
    assert!(!is_dev_build("1.2.3"));
    assert!(!is_dev_build("1.2.3-dev.1"));
}

#[test]
fn this_build_is_a_dev_build() {
    assert_eq!(current_version(), "0.1.0-dev");
    assert!(is_dev_build(current_version()));
    assert!(!is_dev_build("-de"));
    assert!(is_dev_build("-dev"));
}
