use teamscale_timestamp::app::App;
use teamscale_timestamp::env_reader::EnvReader;
use teamscale_timestamp::git::Git;
use teamscale_timestamp::logger::Logger;
use teamscale_timestamp::svn::Svn;

fn pair(name: &str, value: &str) -> (String, String) {
    (name.to_string(), value.to_string())
}

fn app_with_env(entries: Vec<(String, String)>) -> App {
    App::new(
        Logger::new(true),
        EnvReader::new(entries),
        None,
        Svn::new(None, None, None),
        Git::new(None, None, None),
    )
}

#[test]
fn empty_environment_means_no_branch() {
    let branch = app_with_env(vec![]).branch_from_environment();
    assert_eq!(None, branch);
}

#[test]
fn read_branch_from_env_variable() {
    let branch = app_with_env(vec![pair("GIT_BRANCH", "the-branch")]).branch_from_environment();
    assert_eq!(Some("the-branch".to_string()), branch);
}

#[test]
fn branch_env_priority_order() {
    let branch = app_with_env(vec![
        pair("TRAVIS_BRANCH", "later"),
        pair("GIT_BRANCH", "earlier"),
    ])
    .branch_from_environment();
    assert_eq!(Some("earlier".to_string()), branch);
}

#[test]
fn end_to_end_svn_present() {
    let app = App::new(
        Logger::new(false),
        EnvReader::new(vec![]),
        None,
        Svn::new(
            Some("Path: .\nURL: https://svn.com/repo/trunk/proj\n".to_string()),
            Some("https://svn.com/repo/trunk/proj\n".to_string()),
            Some("2019-08-06T14:13:34.879966Z\n".to_string()),
        ),
        Git::new(None, None, None),
    );
    assert_eq!(Some("trunk".to_string()), app.guess_branch());
    assert_eq!(Some("1565100814000".to_string()), app.guess_timestamp(None));
}

#[test]
fn end_to_end_git_fallback() {
    let app = App::new(
        Logger::new(false),
        EnvReader::new(vec![]),
        None,
        Svn::new(None, None, None),
        Git::new(
            Some("true\n".to_string()),
            Some("1565000000000".to_string()),
            Some("* master\n".to_string()),
        ),
    );
    assert_eq!(Some("master".to_string()), app.guess_branch());
    assert_eq!(Some("1565000000000".to_string()), app.guess_timestamp(None));
}

#[test]
fn end_to_end_env_branch_without_timestamp() {
    let app = app_with_env(vec![pair("CIRCLE_BRANCH", "feature")]);
    assert_eq!(Some("feature".to_string()), app.guess_branch());
    assert_eq!(None, app.guess_timestamp(None));
}

#[test]
fn svn_branch_beats_environment() {
    let app = App::new(
        Logger::new(false),
        EnvReader::new(vec![pair("BRANCH", "from-env")]),
        None,
        Svn::new(
            Some("URL: https://svn.com/repo/branches/blue/x\n".to_string()),
            Some("https://svn.com/repo/branches/blue/x".to_string()),
            None,
        ),
        Git::new(None, None, None),
    );
    assert_eq!(Some("blue".to_string()), app.guess_branch());
}

#[test]
fn svn_url_environment_fallback() {
    let app = App::new(
        Logger::new(false),
        EnvReader::new(vec![pair("SVN_URL", "https://svn.com/repo/tags/v1/x")]),
        None,
        Svn::new(None, None, None),
        Git::new(None, None, None),
    );
    assert_eq!(Some("v1".to_string()), app.guess_branch());
}
