//! The resolver: combines the SVN probe, the CI environment variables, the
//! Git probe and the TFS backend in a fixed priority order to produce the
//! branch and the timestamp for the upload token.
//!
//! For the branch the order is SVN, then environment variables, then the Git
//! heuristic; for the timestamp it is SVN, then Git, then the remote TFS
//! lookup.  Each source is consulted until the first present value.

use vstd::prelude::*;
use crate::env_reader::EnvReader;
use crate::env_reader::spec_env_lookup;
use crate::git::Git;
use crate::git::spec_git_timestamp;
use crate::git::spec_guess_branch;
use crate::logger::Logger;
use crate::svn::Svn;
use crate::svn::spec_extract_branch;
use crate::svn::spec_svn_branch;
use crate::svn::spec_svn_timestamp;
use crate::tfs::HttpOutcome;
use crate::tfs::Tfs;
use crate::tfs::spec_tfs_timestamp;

verus! {

/// Short-circuit choice between two optional results.
pub open spec fn spec_or(a: Option<Seq<char>>, b: Option<Seq<char>>) -> Option<Seq<char>> {
    match a {
        Some(v) => Some(v),
        None => b,
    }
}

/// The environment variables consulted for a branch name, in priority order:
/// common names first, then the names the known CI systems set.
pub open spec fn spec_branch_env_names() -> Seq<Seq<char>> {
    seq![
        "BRANCH"@,
        "branch"@,
        "GIT_BRANCH"@,
        "build_branch"@,
        "BUILD_BRANCH"@,
        "BRANCH_NAME"@,
        "BUILD_SOURCEBRANCHNAME"@,
        "CIRCLE_BRANCH"@,
        "TRAVIS_BRANCH"@,
        "BITBUCKET_BRANCH"@,
        "CI_MERGE_REQUEST_SOURCE_BRANCH_NAME"@,
        "CI_COMMIT_REF_NAME"@,
        "APPVEYOR_PULL_REQUEST_HEAD_REPO_BRANCH"@,
        "APPVEYOR_REPO_BRANCH"@,
    ]
}

/// The first of the named variables that is set, in order.
pub open spec fn spec_first_env(
    env: Seq<(Seq<char>, Seq<char>)>,
    names: Seq<Seq<char>>,
) -> Option<Seq<char>>
    decreases names.len(),
{
    if names.len() == 0 {
        None
    } else {
        match spec_env_lookup(env, names[0]) {
            Some(v) => Some(v),
            None => spec_first_env(env, names.drop_first()),
        }
    }
}

/// The branch taken from the environment: the first of the known variables
/// that is set.
pub open spec fn spec_branch_from_environment(env: Seq<(Seq<char>, Seq<char>)>) -> Option<
    Seq<char>,
> {
    spec_first_env(env, spec_branch_env_names())
}

/// The branch taken from the `SVN_URL` environment variable.
pub open spec fn spec_svn_env_branch(env: Seq<(Seq<char>, Seq<char>)>) -> Option<Seq<char>> {
    match spec_env_lookup(env, "SVN_URL"@) {
        Some(url) => spec_extract_branch(url),
        None => None,
    }
}

/// The resolver's configuration and probe inputs.
pub struct App {
    /// Whether verbose diagnostics were requested.
    pub logger: Logger,
    /// The environment snapshot every variable lookup goes through.
    pub env_reader: EnvReader,
    /// A caller-supplied personal access token for the TFS, if any.
    pub tfs_personal_access_token: Option<String>,
    /// The SVN probe, over captured command output.
    pub svn: Svn,
    /// The Git probe, over captured command output.
    pub git: Git,
}

/// The branch the SVN backend yields: the working copy's URL first, the
/// `SVN_URL` variable as the fallback for build agents without a checkout.
pub open spec fn spec_branch_from_svn(a: App) -> Option<Seq<char>> {
    spec_or(spec_svn_branch(a.svn), spec_svn_env_branch(a.env_reader@))
}

/// The resolved branch: SVN first, then the environment variables, then the
/// Git heuristic.
pub open spec fn spec_app_branch(a: App) -> Option<Seq<char>> {
    spec_or(
        spec_branch_from_svn(a),
        spec_or(spec_branch_from_environment(a.env_reader@), spec_guess_branch(a.git)),
    )
}

/// The personal access token as a sequence of characters, when present.
pub open spec fn spec_pat_view(pat: Option<String>) -> Option<Seq<char>> {
    match pat {
        Some(t) => Some(t@),
        None => None,
    }
}

/// The resolved timestamp: SVN first, then Git, then the remote TFS lookup.
pub open spec fn spec_app_timestamp(a: App, outcome: Option<HttpOutcome>) -> Option<Seq<char>> {
    spec_or(
        spec_svn_timestamp(a.svn),
        spec_or(
            spec_git_timestamp(a.git),
            spec_tfs_timestamp(a.env_reader@, spec_pat_view(a.tfs_personal_access_token), outcome),
        ),
    )
}

impl App {
    /// A resolver over the given configuration and probe inputs.
    pub fn new(
        logger: Logger,
        env_reader: EnvReader,
        tfs_personal_access_token: Option<String>,
        svn: Svn,
        git: Git,
    ) -> (a: App)
        ensures
            a.logger == logger,
            a.env_reader == env_reader,
            a.tfs_personal_access_token == tfs_personal_access_token,
            a.svn == svn,
            a.git == git,
    {
        App { logger, env_reader, tfs_personal_access_token, svn, git }
    }

    /// The branch from the SVN backend: working-copy URL first, then the
    /// `SVN_URL` environment variable.
    fn branch_from_svn(&self) -> (r: Option<String>)
        ensures
            r is Some <==> spec_branch_from_svn(*self) is Some,
            r matches Some(b) ==> spec_branch_from_svn(*self) == Some(b@),
    {
        match self.svn.branch() {
            Some(branch) => Some(branch),
            None => self.svn.branch_from_environment(&self.env_reader),
        }
    }

    /// The branch guessed by the Git probe.
    fn guess_branch_from_git(&self) -> (r: Option<String>)
        ensures
            r is Some <==> spec_guess_branch(self.git) is Some,
            r matches Some(b) ==> spec_guess_branch(self.git) == Some(b@),
    {
        self.git.guess_branch()
    }

    /// The branch taken from the environment: the first of the known CI
    /// variables that is set, in the documented priority order.
    pub fn branch_from_environment(&self) -> (r: Option<String>)
        ensures
            r is Some <==> spec_branch_from_environment(self.env_reader@) is Some,
            r matches Some(b) ==> spec_branch_from_environment(self.env_reader@) == Some(b@),
    {
        let mut names: Vec<&str> = Vec::new();
        names.push("BRANCH");
        names.push("branch");
        names.push("GIT_BRANCH");
        names.push("build_branch");
        names.push("BUILD_BRANCH");
        names.push("BRANCH_NAME");
        names.push("BUILD_SOURCEBRANCHNAME");
        names.push("CIRCLE_BRANCH");
        names.push("TRAVIS_BRANCH");
        names.push("BITBUCKET_BRANCH");
        names.push("CI_MERGE_REQUEST_SOURCE_BRANCH_NAME");
        names.push("CI_COMMIT_REF_NAME");
        names.push("APPVEYOR_PULL_REQUEST_HEAD_REPO_BRANCH");
        names.push("APPVEYOR_REPO_BRANCH");
        proof {
            assert forall|k: int| 0 <= k < spec_branch_env_names().len() implies names@[k]@
                == spec_branch_env_names()[k] by {
            }
            assert(spec_branch_env_names().skip(0) =~= spec_branch_env_names());
        }
        let n = names.len();
        let mut i: usize = 0;
        while i < n
            invariant
                i <= n,
                n == names@.len(),
                names@.len() == spec_branch_env_names().len(),
                forall|k: int| 0 <= k < names@.len() ==> names@[k]@ == spec_branch_env_names()[k],
                spec_branch_from_environment(self.env_reader@) == spec_first_env(
                    self.env_reader@,
                    spec_branch_env_names().skip(i as int),
                ),
            decreases n - i,
        {
            let value = self.env_reader.env_variable(names[i]);
            proof {
                assert(spec_branch_env_names().skip(i as int)[0] == spec_branch_env_names()[
                    i as int
                ]);
                assert(spec_branch_env_names().skip(i as int).drop_first()
                    =~= spec_branch_env_names().skip(i as int + 1));
            }
            if value.is_some() {
                return value;
            }
            i = i + 1;
        }
        proof {
            assert(spec_branch_env_names().skip(n as int).len() == 0);
        }
        None
    }

    /// The resolved branch: local SVN metadata is authoritative when present,
    /// CI environment variables are more trustworthy than guessing from
    /// commit ancestry, and the Git guess is the last resort.
    pub fn guess_branch(&self) -> (r: Option<String>)
        ensures
            r is Some <==> spec_app_branch(*self) is Some,
            r matches Some(b) ==> spec_app_branch(*self) == Some(b@),
    {
        match self.branch_from_svn() {
            Some(branch) => Some(branch),
            None => match self.branch_from_environment() {
                Some(branch) => Some(branch),
                None => self.guess_branch_from_git(),
            },
        }
    }

    /// The resolved timestamp: SVN first, then Git, then the TFS backend,
    /// whose request outcome the caller hands in when a request was sent.
    pub fn guess_timestamp(&self, tfs_outcome: Option<&HttpOutcome>) -> (r: Option<String>)
        ensures
            ({
                let oc = match tfs_outcome {
                    Some(o) => Some(*o),
                    None => None::<HttpOutcome>,
                };
                &&& r is Some <==> spec_app_timestamp(*self, oc) is Some
                &&& r matches Some(t) ==> spec_app_timestamp(*self, oc) == Some(t@)
            }),
    {
        let svn_timestamp = self.svn.timestamp();
        let git_timestamp = self.git.head_timestamp();
        let tfs = Tfs::new(&self.env_reader);
        let pat: Option<&String> = match &self.tfs_personal_access_token {
            Some(token) => Some(token),
            None => None,
        };
        let tfs_timestamp = tfs.timestamp(pat, tfs_outcome);
        match svn_timestamp {
            Some(timestamp) => Some(timestamp),
            None => match git_timestamp {
                Some(timestamp) => Some(timestamp),
                None => tfs_timestamp,
            },
        }
    }
}

} // verus!
