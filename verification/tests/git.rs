use teamscale_timestamp::git::Git;

#[test]
fn test_preprocess_branch_text() {
    assert_eq!(
        vec!["master".to_string()],
        Git::preprocess_branch_text("master")
    );
    assert_eq!(
        vec!["master".to_string()],
        Git::preprocess_branch_text("* master")
    );
    assert_eq!(
        vec!["master".to_string(), "branch".to_string()],
        Git::preprocess_branch_text("* master\nbranch")
    );
    assert_eq!(
        vec!["master".to_string()],
        Git::preprocess_branch_text("* (HEAD detached at 6f9a90e36e6)\nmaster\n")
    );
}

#[test]
fn guess_branch_single() {
    let git = Git::new(
        Some("true\n".to_string()),
        None,
        Some("* master".to_string()),
    );
    assert_eq!(Some("master".to_string()), git.guess_branch());
}

#[test]
fn guess_branch_ambiguous() {
    let git = Git::new(
        Some("true\n".to_string()),
        None,
        Some("* master\nbranch".to_string()),
    );
    assert_eq!(None, git.guess_branch());
}

#[test]
fn guess_branch_detached_head_filtered() {
    let git = Git::new(
        Some("true\n".to_string()),
        None,
        Some("* (HEAD detached at 6f9a90e36e6)\nmaster\n".to_string()),
    );
    assert_eq!(Some("master".to_string()), git.guess_branch());
}

#[test]
fn guess_branch_empty_listing() {
    let git = Git::new(Some("true\n".to_string()), None, Some("".to_string()));
    assert_eq!(None, git.guess_branch());
}

#[test]
fn not_a_work_tree_means_no_timestamp() {
    let git = Git::new(
        Some("false\n".to_string()),
        Some("1565000000000".to_string()),
        None,
    );
    assert_eq!(None, git.head_timestamp());
}

#[test]
fn head_timestamp_passed_through() {
    let git = Git::new(
        Some("  true  ".to_string()),
        Some("1565000000000".to_string()),
        None,
    );
    assert_eq!(Some("1565000000000".to_string()), git.head_timestamp());
}
