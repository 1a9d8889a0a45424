use teamscale_timestamp::svn::extract_branch_from_url;
use teamscale_timestamp::svn::svn_date_string_to_timestamp;
use teamscale_timestamp::svn::Svn;

#[test]
fn test_extract_branch_from_url() {
    assert_eq!(
        Some("trunk".to_string()),
        extract_branch_from_url("https://svn.com/repo/trunk/something")
    );
    assert_eq!(
        Some("trunk".to_string()),
        extract_branch_from_url("https://svn.com/repo/trunk")
    );
    assert_eq!(
        Some("foo".to_string()),
        extract_branch_from_url("https://svn.com/repo/branches/foo/something")
    );
    assert_eq!(
        Some("bar".to_string()),
        extract_branch_from_url("https://svn.com/repo/tags/bar/")
    );
    assert_eq!(None, extract_branch_from_url("https://svn.com/repo/unrelated"));
    assert_eq!(None, extract_branch_from_url("https://svn.com/repo/trunkate"));
    assert_eq!(
        None,
        extract_branch_from_url("https://svn.com/repo/branching/blue")
    );
}

#[test]
fn test_date_parsing() {
    assert_eq!(
        Some(1565100814),
        svn_date_string_to_timestamp("2019-08-06T14:13:34.879966Z")
    );
}

#[test]
fn malformed_date_does_not_parse() {
    assert_eq!(None, svn_date_string_to_timestamp("not a date"));
    assert_eq!(None, svn_date_string_to_timestamp("2019-08-06 14:13:34"));
}

#[test]
fn svn_timestamp_discards_subsecond_precision() {
    let svn = Svn::new(
        Some("URL: https://svn.com/repo/trunk\n".to_string()),
        None,
        Some("2019-08-06T14:13:34.879966Z\n".to_string()),
    );
    assert_eq!(Some("1565100814000".to_string()), svn.timestamp());
}

#[test]
fn no_working_copy_means_no_timestamp() {
    let svn = Svn::new(
        Some("svn: warning: W155007\n".to_string()),
        None,
        Some("2019-08-06T14:13:34.879966Z\n".to_string()),
    );
    assert_eq!(None, svn.timestamp());
}

#[test]
fn branch_from_working_copy_url() {
    let svn = Svn::new(
        Some("URL: https://svn.com/repo/branches/foo/x\n".to_string()),
        Some("https://svn.com/repo/branches/foo/x\n".to_string()),
        None,
    );
    assert_eq!(Some("foo".to_string()), svn.branch());
}
