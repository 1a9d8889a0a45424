//! Retrieving info from a Git repo: whether the captured command output shows
//! a work tree, the head commit's timestamp, and a last-resort branch guess
//! from the listing of branches that contain the head commit.
//!
//! The probe is built from the captured standard output of three commands run
//! by the surrounding binary: the work-tree sanity check, the head-commit log
//! line, and the containing-branches listing.  A missing output means the
//! command failed.

use vstd::prelude::*;
use vstd::string::StrSliceExecFns;
use vstd::string::StringExecFns;
use crate::strings::contains_seq;
use crate::strings::spec_find;
use crate::strings::spec_trim;
use crate::strings::str_contains;
use crate::strings::str_eq;
use crate::strings::lemma_spec_find;
use crate::strings::trim;

verus! {

/// Info captured from a Git working copy, one field per command.
pub struct Git {
    /// Output of the work-tree sanity check, if the command succeeded.
    pub rev_parse_output: Option<String>,
    /// Output of the single-commit log formatted as epoch milliseconds,
    /// if the command succeeded.
    pub log_output: Option<String>,
    /// Output of the containing-branches listing, if the command succeeded.
    pub branch_contains_output: Option<String>,
}

/// The working copy is a Git work tree: the sanity check printed exactly
/// `true` up to surrounding whitespace.
pub open spec fn spec_is_git(g: Git) -> bool {
    g.rev_parse_output matches Some(out) && spec_trim(out@) == "true"@
}

/// A line of the branch listing after cleaning: surrounding whitespace
/// removed, and a leading `*` marker with the whitespace behind it stripped.
pub open spec fn spec_clean_line(line: Seq<char>) -> Seq<char> {
    let t = spec_trim(line);
    if t.len() > 0 && t[0] == '*' {
        spec_trim(t.drop_first())
    } else {
        t
    }
}

/// A cleaned line counts as a branch name unless it is the detached-head marker.
pub open spec fn spec_keep_branch(b: Seq<char>) -> bool {
    !contains_seq(b, "HEAD detached"@)
}

/// The cleaned branch names of the listing, in order: the text split at line
/// breaks, each line cleaned, and the detached-head marker lines dropped.
pub open spec fn spec_preprocess(text: Seq<char>) -> Seq<Seq<char>>
    decreases text.len(),
    via spec_preprocess_decreases
{
    if text.len() == 0 {
        seq![]
    } else {
        let n = spec_find(text, '\n');
        let b = spec_clean_line(text.subrange(0, n));
        let rest = if n == text.len() {
            seq![]
        } else {
            spec_preprocess(text.subrange(n + 1, text.len() as int))
        };
        if spec_keep_branch(b) {
            seq![b] + rest
        } else {
            rest
        }
    }
}

#[via_fn]
proof fn spec_preprocess_decreases(text: Seq<char>) {
    lemma_spec_find(text, '\n');
}

/// The branch guessed from the listing: the single cleaned name if there is
/// exactly one, absence otherwise.
pub open spec fn spec_single_branch(text: Seq<char>) -> Option<Seq<char>> {
    let branches = spec_preprocess(text);
    if branches.len() == 1 {
        Some(branches[0])
    } else {
        None
    }
}

/// The timestamp of the probe: the log command's output, as printed, for a
/// Git work tree whose log command succeeded.
pub open spec fn spec_git_timestamp(g: Git) -> Option<Seq<char>> {
    if spec_is_git(g) {
        match g.log_output {
            Some(out) => Some(out@),
            None => None,
        }
    } else {
        None
    }
}

/// The branch guess of the whole probe: only for a Git work tree whose
/// branch listing was captured and cleans to exactly one name.
pub open spec fn spec_guess_branch(g: Git) -> Option<Seq<char>> {
    if spec_is_git(g) {
        match g.branch_contains_output {
            Some(text) => spec_single_branch(text@),
            None => None,
        }
    } else {
        None
    }
}

/// One line of the listing, cleaned.
fn clean_line(line: &str) -> (r: &str)
    ensures
        r@ == spec_clean_line(line@),
{
    let t = trim(line);
    let t_len = t.unicode_len();
    if t_len > 0 && t.get_char(0) == '*' {
        let rest = t.substring_char(1, t_len);
        proof {
            assert(rest@ =~= t@.drop_first());
        }
        trim(rest)
    } else {
        t
    }
}

impl Git {
    /// A probe over the captured outputs of the three commands.
    pub fn new(
        rev_parse_output: Option<String>,
        log_output: Option<String>,
        branch_contains_output: Option<String>,
    ) -> (g: Git)
        ensures
            g.rev_parse_output == rev_parse_output,
            g.log_output == log_output,
            g.branch_contains_output == branch_contains_output,
    {
        Git { rev_parse_output, log_output, branch_contains_output }
    }

    /// Whether the working copy is part of some Git repo.
    fn is_git(&self) -> (r: bool)
        ensures
            r == spec_is_git(*self),
    {
        match &self.rev_parse_output {
            Some(out) => str_eq(trim(out.as_str()), "true"),
            None => false,
        }
    }

    /// The timestamp of the checked out commit, as the log command printed it.
    pub fn head_timestamp(&self) -> (r: Option<String>)
        ensures
            r == (if spec_is_git(*self) {
                self.log_output
            } else {
                None::<String>
            }),
    {
        if !self.is_git() {
            return None;
        }
        self.log_output.clone()
    }

    /// The cleaned branch names of a containing-branches listing.
    pub fn preprocess_branch_text(branch_text: &str) -> (r: Vec<String>)
        ensures
            r.deep_view() == spec_preprocess(branch_text@),
    {
        let mut result: Vec<String> = Vec::new();
        let len = branch_text.unicode_len();
        if len == 0 {
            proof {
                assert(result.deep_view() =~= spec_preprocess(branch_text@));
            }
            return result;
        }
        let mut pos: usize = 0;
        proof {
            assert(branch_text@.subrange(0, len as int) =~= branch_text@);
            assert(result.deep_view() =~= Seq::<Seq<char>>::empty());
        }
        loop
            invariant_except_break
                pos < len,
                len == branch_text@.len(),
                spec_preprocess(branch_text@) =~= result.deep_view() + spec_preprocess(
                    branch_text@.subrange(pos as int, len as int),
                ),
            ensures
                result.deep_view() == spec_preprocess(branch_text@),
            decreases len - pos,
        {
            let ghost prev = result.deep_view();
            let ghost remaining = branch_text@.subrange(pos as int, len as int);
            let n = crate::strings::find_char(branch_text, pos, '\n');
            let line = branch_text.substring_char(pos, n);
            proof {
                assert(remaining.len() > 0);
                assert(n - pos == spec_find(remaining, '\n'));
                assert(line@ =~= remaining.subrange(0, n - pos));
            }
            let cleaned = clean_line(line);
            if !str_contains(cleaned, "HEAD detached") {
                result.push(String::from_str(cleaned));
            }
            proof {
                if n == len {
                    assert(spec_preprocess(remaining) == (if spec_keep_branch(
                        spec_clean_line(line@),
                    ) {
                        seq![spec_clean_line(line@)]
                    } else {
                        Seq::<Seq<char>>::empty()
                    }));
                } else {
                    assert(remaining.subrange(n - pos + 1, remaining.len() as int)
                        =~= branch_text@.subrange(n + 1, len as int));
                    assert(spec_preprocess(remaining) == (if spec_keep_branch(
                        spec_clean_line(line@),
                    ) {
                        seq![spec_clean_line(line@)] + spec_preprocess(
                            branch_text@.subrange(n + 1, len as int),
                        )
                    } else {
                        spec_preprocess(branch_text@.subrange(n + 1, len as int))
                    }));
                }
                if spec_keep_branch(spec_clean_line(line@)) {
                    assert(result.deep_view() =~= prev.push(spec_clean_line(line@)));
                }
            }
            if n == len {
                proof {
                    assert(result.deep_view() =~= spec_preprocess(branch_text@));
                }
                break;
            }
            if n + 1 == len {
                proof {
                    assert(branch_text@.subrange(n + 1, len as int).len() == 0);
                    assert(result.deep_view() =~= spec_preprocess(branch_text@));
                }
                break;
            }
            pos = n + 1;
        }
        result
    }

    /// The single cleaned branch name of a listing, or absence when the
    /// listing cleans to no name or to more than one.
    fn extract_single_branch(&self, branch_text: &str) -> (r: Option<String>)
        ensures
            r is Some <==> spec_single_branch(branch_text@) is Some,
            r matches Some(b) ==> spec_single_branch(branch_text@) == Some(b@),
    {
        let mut branches = Git::preprocess_branch_text(branch_text);
        if branches.len() == 1 {
            let b = branches.remove(0);
            proof {
                assert(b@ == spec_preprocess(branch_text@)[0]);
            }
            Some(b)
        } else {
            None
        }
    }

    /// Last resort: the branch guessed from the checked out commit, taken from
    /// the listing of all local branches the commit is part of.  Present only
    /// when that listing holds exactly one branch.
    pub fn guess_branch(&self) -> (r: Option<String>)
        ensures
            r is Some <==> spec_guess_branch(*self) is Some,
            r matches Some(b) ==> spec_guess_branch(*self) == Some(b@),
    {
        if !self.is_git() {
            return None;
        }
        match &self.branch_contains_output {
            Some(text) => self.extract_single_branch(text.as_str()),
            None => None,
        }
    }
}

} // verus!
