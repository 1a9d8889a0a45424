//! Retrieving info from an SVN repo: whether the captured metadata output
//! shows a working copy, the branch extracted from the working-copy URL, and
//! the last-changed timestamp.
//!
//! A URL names a branch through one of three segment shapes: `/branches/<name>`,
//! `/tags/<name>`, or a `/trunk` segment, which yields the literal name
//! `trunk`.  The earliest such segment in the URL wins, and a branches or tags
//! segment needs at least one character after its marker.

use vstd::prelude::*;
use vstd::string::StrSliceExecFns;
use vstd::string::StringExecFns;
use crate::decimal::spec_idec;
use crate::decimal::i64_to_dec_string;
use crate::env_reader::EnvReader;
use crate::env_reader::spec_env_lookup;
use crate::rfc3339::parse_rfc3339;
use crate::rfc3339::rfc3339_instant;
use crate::strings::contains_seq;
use crate::strings::find_char;
use crate::strings::lemma_spec_find_unique;
use crate::strings::match_at;
use crate::strings::spec_find;
use crate::strings::spec_trim;
use crate::strings::starts_with_at;
use crate::strings::str_contains;
use crate::strings::trim;

verus! {

/// A marker such as `/branches/` occurs at `i` and is followed by at least one
/// character that is not a slash: the start of a named branch segment.
pub open spec fn seg_match_at(url: Seq<char>, i: int, marker: Seq<char>) -> bool {
    &&& starts_with_at(url, i, marker)
    &&& i + marker.len() < url.len()
    &&& url[i + marker.len()] != '/'
}

/// A named branch or tag segment starts at `i`.
pub open spec fn branch_seg_match_at(url: Seq<char>, i: int) -> bool {
    seg_match_at(url, i, "/branches/"@) || seg_match_at(url, i, "/tags/"@)
}

/// A `/trunk` segment starts at `i`: the marker is followed by a slash or by
/// the end of the URL.
pub open spec fn trunk_match_at(url: Seq<char>, i: int) -> bool {
    &&& starts_with_at(url, i, "/trunk"@)
    &&& (i + "/trunk"@.len() == url.len() || url[i + "/trunk"@.len()] == '/')
}

/// Any of the three branch-naming shapes starts at `i`.
pub open spec fn url_match_at(url: Seq<char>, i: int) -> bool {
    branch_seg_match_at(url, i) || trunk_match_at(url, i)
}

/// The segment name that starts at `start`: everything up to the next slash
/// or to the end of the URL.
pub open spec fn seg_name(url: Seq<char>, start: int) -> Seq<char> {
    url.subrange(start, start + spec_find(url.subrange(start, url.len() as int), '/'))
}

/// The name of the branch segment starting at `i`.
pub open spec fn spec_branch_name_at(url: Seq<char>, i: int) -> Seq<char> {
    if seg_match_at(url, i, "/branches/"@) {
        seg_name(url, i + "/branches/"@.len())
    } else {
        seg_name(url, i + "/tags/"@.len())
    }
}

/// The branch named by the earliest matching segment at or after `i`.
pub open spec fn spec_extract_from(url: Seq<char>, i: int) -> Option<Seq<char>>
    decreases url.len() - i,
{
    if i >= url.len() {
        None
    } else if branch_seg_match_at(url, i) {
        Some(spec_branch_name_at(url, i))
    } else if trunk_match_at(url, i) {
        Some("trunk"@)
    } else {
        spec_extract_from(url, i + 1)
    }
}

/// The branch named by the URL: the name of the earliest `/branches/<name>`
/// or `/tags/<name>` segment, the literal name `trunk` for the earliest
/// `/trunk` segment, or absence when no segment matches.
pub open spec fn spec_extract_branch(url: Seq<char>) -> Option<Seq<char>> {
    spec_extract_from(url, 0)
}

/// A named segment found at `i`, as an owned string: the characters between
/// the end of the marker and the next slash, when the segment shape matches.
fn seg_branch_at(url: &str, i: usize, marker: &str) -> (r: Option<String>)
    requires
        i <= url@.len(),
    ensures
        r is Some <==> seg_match_at(url@, i as int, marker@),
        r matches Some(b) ==> b@ == seg_name(url@, i + marker@.len()),
{
    if match_at(url, i, marker) {
        let len = url.unicode_len();
        let start = i + marker.unicode_len();
        if start < len && url.get_char(start) != '/' {
            let end = find_char(url, start, '/');
            let name = url.substring_char(start, end);
            proof {
                assert(name@ =~= seg_name(url@, start as int));
            }
            Some(String::from_str(name))
        } else {
            None
        }
    } else {
        None
    }
}

/// Whether a `/trunk` segment starts at `i`.
fn trunk_at(url: &str, i: usize) -> (r: bool)
    requires
        i <= url@.len(),
    ensures
        r == trunk_match_at(url@, i as int),
{
    if match_at(url, i, "/trunk") {
        let len = url.unicode_len();
        let after = i + "/trunk".unicode_len();
        after == len || url.get_char(after) == '/'
    } else {
        false
    }
}

/// Extracts the branch named by an SVN URL, scanning for the earliest
/// `/branches/<name>`, `/tags/<name>` or `/trunk` segment.
pub fn extract_branch_from_url(url: &str) -> (r: Option<String>)
    ensures
        r is Some <==> spec_extract_branch(url@) is Some,
        r matches Some(b) ==> spec_extract_branch(url@) == Some(b@),
{
    let len = url.unicode_len();
    let mut i: usize = 0;
    while i < len
        invariant
            i <= len,
            len == url@.len(),
            spec_extract_branch(url@) == spec_extract_from(url@, i as int),
        decreases len - i,
    {
        let from_branches = seg_branch_at(url, i, "/branches/");
        if from_branches.is_some() {
            return from_branches;
        }
        let from_tags = seg_branch_at(url, i, "/tags/");
        if from_tags.is_some() {
            return from_tags;
        }
        if trunk_at(url, i) {
            return Some(String::from_str("trunk"));
        }
        proof {
            assert(spec_extract_from(url@, i as int) == spec_extract_from(url@, i as int + 1));
        }
        i = i + 1;
    }
    None
}

/// Positions before the first match do not change the extraction result.
proof fn lemma_extract_skip(url: Seq<char>, i: int)
    requires
        0 <= i,
        forall|j: int| 0 <= j < i ==> !url_match_at(url, j),
    ensures
        spec_extract_branch(url) == spec_extract_from(url, i),
    decreases i,
{
    if i > 0 {
        lemma_extract_skip(url, i - 1);
        assert(!url_match_at(url, i - 1));
        if i - 1 >= url.len() {
            assert(spec_extract_from(url, i - 1) == None::<Seq<char>>);
            assert(spec_extract_from(url, i) == None::<Seq<char>>);
        }
    }
}

/// The earliest matching segment decides the extraction result.
pub proof fn lemma_extract_first_match(url: Seq<char>, i: int)
    requires
        0 <= i < url.len(),
        url_match_at(url, i),
        forall|j: int| 0 <= j < i ==> !url_match_at(url, j),
    ensures
        branch_seg_match_at(url, i) ==> spec_extract_branch(url) == Some(
            spec_branch_name_at(url, i),
        ),
        !branch_seg_match_at(url, i) ==> spec_extract_branch(url) == Some("trunk"@),
{
    lemma_extract_skip(url, i);
}

/// A URL in which no branch-naming segment occurs yields absence.
pub proof fn lemma_extract_absent(url: Seq<char>)
    requires
        forall|j: int| 0 <= j < url.len() ==> !url_match_at(url, j),
    ensures
        spec_extract_branch(url) == None::<Seq<char>>,
{
    lemma_extract_absent_from(url, 0);
}

proof fn lemma_extract_absent_from(url: Seq<char>, i: int)
    requires
        0 <= i,
        forall|j: int| i <= j < url.len() ==> !url_match_at(url, j),
    ensures
        spec_extract_from(url, i) == None::<Seq<char>>,
    decreases url.len() - i,
{
    if i < url.len() {
        assert(!url_match_at(url, i));
        lemma_extract_absent_from(url, i + 1);
    }
}

/// For a URL of the shape `pre + marker + name + post`, with marker one of
/// `/branches/` or `/tags/`, a non-empty slash-free `name`, a `post` that is
/// empty or starts with a slash, and no branch-naming segment anywhere in
/// `pre`, extraction returns exactly `name`.
pub proof fn lemma_extract_named_segment(
    pre: Seq<char>,
    marker: Seq<char>,
    name: Seq<char>,
    post: Seq<char>,
)
    requires
        marker == "/branches/"@ || marker == "/tags/"@,
        name.len() > 0,
        forall|k: int| 0 <= k < name.len() ==> name[k] != '/',
        post.len() == 0 || post[0] == '/',
        forall|j: int| 0 <= j < pre.len() ==> !url_match_at(pre + marker + name + post, j),
    ensures
        spec_extract_branch(pre + marker + name + post) == Some(name),
{
    reveal_strlit("/branches/");
    reveal_strlit("/tags/");
    let url = pre + marker + name + post;
    let i = pre.len() as int;
    let start = i + marker.len();
    assert(url.subrange(i, start) =~= marker);
    assert(url[start] == name[0]);
    assert(seg_match_at(url, i, marker));
    let tail = url.subrange(start, url.len() as int);
    assert(forall|k: int| 0 <= k < name.len() ==> tail[k] == name[k]);
    assert(name.len() < tail.len() ==> tail[name.len() as int] == post[0]);
    lemma_spec_find_unique(tail, '/', name.len() as int);
    assert(seg_name(url, start) =~= name);
    if marker == "/tags/"@ {
        assert(!seg_match_at(url, i, "/branches/"@)) by {
            assert(url[i + 1] == marker[1]);
            assert(starts_with_at(url, i, "/branches/"@) ==> url.subrange(
                i,
                i + "/branches/"@.len(),
            )[1] == 'b');
        }
    }
    assert(spec_branch_name_at(url, i) == name);
    lemma_extract_first_match(url, i);
}

/// For a URL of the shape `pre + "/trunk" + post`, with a `post` that is empty
/// or starts with a slash and no branch-naming segment anywhere in `pre`,
/// extraction returns exactly the name `trunk`.
pub proof fn lemma_extract_trunk_segment(pre: Seq<char>, post: Seq<char>)
    requires
        post.len() == 0 || post[0] == '/',
        forall|j: int| 0 <= j < pre.len() ==> !url_match_at(pre + "/trunk"@ + post, j),
    ensures
        spec_extract_branch(pre + "/trunk"@ + post) == Some("trunk"@),
{
    reveal_strlit("/trunk");
    reveal_strlit("/branches/");
    reveal_strlit("/tags/");
    let url = pre + "/trunk"@ + post;
    let i = pre.len() as int;
    let after = i + "/trunk"@.len();
    assert(url.subrange(i, after) =~= "/trunk"@);
    assert(after == url.len() || url[after] == post[0]);
    assert(trunk_match_at(url, i));
    assert(!seg_match_at(url, i, "/branches/"@)) by {
        assert(starts_with_at(url, i, "/branches/"@) ==> url.subrange(
            i,
            i + "/branches/"@.len(),
        )[1] == 'b');
        assert(url[i + 1] == 't');
    }
    assert(!seg_match_at(url, i, "/tags/"@)) by {
        assert(starts_with_at(url, i, "/tags/"@) ==> url.subrange(i, i + "/tags/"@.len())[2]
            == 'a');
        assert(url[i + 2] == 'r');
    }
    lemma_extract_first_match(url, i);
}

/// The epoch seconds of an RFC 3339 date string, when it parses.
pub fn svn_date_string_to_timestamp(date_string: &str) -> (r: Option<i64>)
    ensures
        r is Some <==> rfc3339_instant(date_string@) is Some,
        r matches Some(t) ==> rfc3339_instant(date_string@) matches Some(p) && p.0 == t,
{
    match parse_rfc3339(date_string) {
        Some(p) => Some(p.0),
        None => None,
    }
}

/// Round trip of the timestamp path: for an SVN checkout whose trimmed
/// last-changed date parses to a positive number of epoch seconds, the probe's
/// timestamp string is exactly the decimal digits of `1000 * seconds`, the
/// epoch-millisecond value with sub-second precision discarded.
pub proof fn lemma_svn_timestamp_round_trip(s: Svn, seconds: int, millis: int)
    requires
        spec_is_svn(s),
        s.last_changed_date_output matches Some(d) && rfc3339_instant(spec_trim(d@)) == Some(
            (seconds, millis),
        ),
        seconds >= 1,
    ensures
        spec_svn_timestamp(s) == Some(crate::decimal::spec_udec((1000 * seconds) as nat)),
{
    crate::decimal::lemma_seconds_thousand_digits(seconds);
}

/// Info captured from an SVN working copy, one field per metadata query.
pub struct Svn {
    /// Output of the working-copy metadata query, if the command succeeded.
    pub info_output: Option<String>,
    /// Output of the working-copy URL query, if the command succeeded.
    pub url_output: Option<String>,
    /// Output of the last-changed-date query, if the command succeeded.
    pub last_changed_date_output: Option<String>,
}

/// The working copy is an SVN checkout: the metadata query printed a URL field.
pub open spec fn spec_is_svn(s: Svn) -> bool {
    s.info_output matches Some(out) && contains_seq(out@, "URL:"@)
}

/// The branch of the probe: the branch named by the working-copy URL, for an
/// SVN checkout whose URL query succeeded.
pub open spec fn spec_svn_branch(s: Svn) -> Option<Seq<char>> {
    if spec_is_svn(s) {
        match s.url_output {
            Some(url) => spec_extract_branch(url@),
            None => None,
        }
    } else {
        None
    }
}

/// The timestamp string of the probe: the last-changed date trimmed, parsed
/// as RFC 3339 and written as epoch seconds with three zeros appended, for an
/// SVN checkout whose date query succeeded and parses.  Sub-second precision
/// is discarded on this path.
pub open spec fn spec_svn_timestamp(s: Svn) -> Option<Seq<char>> {
    if spec_is_svn(s) {
        match s.last_changed_date_output {
            Some(date) => match rfc3339_instant(spec_trim(date@)) {
                Some(p) => Some(spec_idec(p.0) + seq!['0', '0', '0']),
                None => None,
            },
            None => None,
        }
    } else {
        None
    }
}

impl Svn {
    /// A probe over the captured outputs of the three metadata queries.
    pub fn new(
        info_output: Option<String>,
        url_output: Option<String>,
        last_changed_date_output: Option<String>,
    ) -> (s: Svn)
        ensures
            s.info_output == info_output,
            s.url_output == url_output,
            s.last_changed_date_output == last_changed_date_output,
    {
        Svn { info_output, url_output, last_changed_date_output }
    }

    /// Whether the working copy is part of some SVN repo.
    fn is_svn(&self) -> (r: bool)
        ensures
            r == spec_is_svn(*self),
    {
        match &self.info_output {
            Some(out) => str_contains(out.as_str(), "URL:"),
            None => false,
        }
    }

    /// The timestamp for the currently checked out revision, in epoch
    /// milliseconds with whole-second precision.
    pub fn timestamp(&self) -> (r: Option<String>)
        ensures
            r is Some <==> spec_svn_timestamp(*self) is Some,
            r matches Some(t) ==> spec_svn_timestamp(*self) == Some(t@),
    {
        if !self.is_svn() {
            return None;
        }
        match &self.last_changed_date_output {
            Some(date) => {
                let trimmed = trim(date.as_str());
                match svn_date_string_to_timestamp(trimmed) {
                    Some(seconds) => {
                        let mut out = i64_to_dec_string(seconds);
                        out.append("000");
                        proof {
                            reveal_strlit("000");
                            assert(spec_idec(seconds as int) + "000"@ =~= spec_idec(
                                seconds as int,
                            ) + seq!['0', '0', '0']);
                        }
                        Some(out)
                    },
                    None => None,
                }
            },
            None => None,
        }
    }

    /// The branch read from the `SVN_URL` environment variable, independent of
    /// whether a working copy is present.
    pub fn branch_from_environment(&self, env_reader: &EnvReader) -> (r: Option<String>)
        ensures
            r is Some <==> (spec_env_lookup(env_reader@, "SVN_URL"@) matches Some(url)
                && spec_extract_branch(url) is Some),
            r matches Some(b) ==> (spec_env_lookup(env_reader@, "SVN_URL"@) matches Some(url)
                && spec_extract_branch(url) == Some(b@)),
    {
        match env_reader.env_variable("SVN_URL") {
            Some(url) => extract_branch_from_url(url.as_str()),
            None => None,
        }
    }

    /// The branch extracted from the working-copy URL.
    pub fn branch(&self) -> (r: Option<String>)
        ensures
            r is Some <==> spec_svn_branch(*self) is Some,
            r matches Some(b) ==> spec_svn_branch(*self) == Some(b@),
    {
        if !self.is_svn() {
            return None;
        }
        match &self.url_output {
            Some(url) => extract_branch_from_url(url.as_str()),
            None => None,
        }
    }
}

} // verus!
