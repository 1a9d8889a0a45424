//! The remote changeset client for a TFVC repo: deciding whether the backend
//! applies, resolving the access token, building the changeset request, and
//! classifying the response into a timestamp or one of several distinct
//! errors.
//!
//! The client itself performs no network call.  The surrounding binary sends
//! the prepared request and hands the outcome back as plain values: either a
//! transport fault or the response status, redirect location and body.

use vstd::prelude::*;
use vstd::string::StrSliceExecFns;
use vstd::string::StringExecFns;
use crate::decimal::append_u32_pad3;
use crate::decimal::i64_to_dec_string;
use crate::decimal::spec_idec;
use crate::decimal::spec_pad3;
use crate::env_reader::EnvReader;
use crate::env_reader::spec_env_lookup;
use crate::rfc3339::parse_rfc3339;
use crate::rfc3339::rfc3339_instant;
use crate::strings::contains_seq;
use crate::strings::str_contains;

verus! {

/// The authentication method and secret used to talk to the TFS: a
/// caller-supplied personal token, or an OAuth token read from the
/// environment.  Personal always takes precedence when present.
pub enum AccessToken {
    Personal(String),
    Oauth(String),
}

/// All errors that can occur when trying to determine the timestamp of a
/// TFVC changeset.  Each carries enough context for a diagnostic message.
#[derive(Debug)]
pub enum TfsError {
    /// The response body was not JSON holding a string field `createdDate`.
    JsonParseFailed { body: String },
    /// The request timed out on the way to the server.
    RequestTimedOut { url: Option<String> },
    /// The response body could not be read.
    CannotReadRequestBody,
    /// The server answered with a server-error status on the transport level.
    TfsInternalServerError { url: Option<String> },
    /// No personal token was supplied and the OAuth variable is unset.
    AccessTokenNotProvided,
    /// The server redirected to its sign-in page: the credential was rejected.
    InvalidAccessToken,
    /// The server answered with a non-success status.
    RequestStatusNotSuccessful { url: String, status: u16 },
    /// The request failed on the transport level for another reason.
    OtherRequestError { url: Option<String>, status: Option<u16> },
    /// The `createdDate` field did not parse as an RFC 3339 date.
    DateStringCannotBeParsed { date_string: String },
}

/// The URL an error names, or the placeholder for an unknown one.
pub open spec fn spec_url_text(url: Option<String>) -> Seq<char> {
    match url {
        Some(u) => u@,
        None => "<no URL>"@,
    }
}

/// The diagnostic message of an error: the failing step, with the URL,
/// status, or raw offending string it carries.
pub open spec fn spec_message(e: TfsError) -> Seq<char> {
    match e {
        TfsError::JsonParseFailed { body } => "Failed to parse JSON response from TFS. Original response: "@
            + body@,
        TfsError::RequestTimedOut { url } => "Request to "@ + spec_url_text(url) + " timed out"@,
        TfsError::TfsInternalServerError { url } => "TFS returned error for request to "@
            + spec_url_text(url),
        TfsError::AccessTokenNotProvided => "Environment variable SYSTEM_ACCESSTOKEN not set. Please make sure you activated 'Additional options > Allow scripts to access OAuth token' for your pipeline job! Otherwise, the timestamp for a TFVC changeset cannot be determined."@,
        TfsError::InvalidAccessToken => "The access token provided via the environment variable SYSTEM_ACCESSTOKEN was not accepted by the TFS. Please make sure you activated 'Additional options > Allow scripts to access OAuth token' for your pipeline job, which will set the correct SYSTEM_ACCESSTOKEN environment variable! Otherwise, the timestamp for a TFVC changeset cannot be determined. Alternatively, you can provide a personal access token via the command line option --tfs-pat."@,
        TfsError::DateStringCannotBeParsed { date_string } => "TFS returned unparsable date "@
            + date_string@,
        TfsError::CannotReadRequestBody => "Failed to read request body"@,
        TfsError::RequestStatusNotSuccessful { url, status } => "Request to "@ + url@
            + " failed with status code "@ + crate::decimal::spec_udec(status as nat),
        TfsError::OtherRequestError { url, status } => "Request to "@ + spec_url_text(url)
            + " failed with HTTP status code "@ + (match status {
            Some(s) => crate::decimal::spec_udec(s as nat),
            None => "<no HTTP status>"@,
        }),
    }
}

impl TfsError {
    /// The diagnostic message for this error.
    pub fn message(&self) -> (r: String)
        ensures
            r@ == spec_message(*self),
    {
        let mut out = String::new();
        match self {
            TfsError::JsonParseFailed { body } => {
                out.append("Failed to parse JSON response from TFS. Original response: ");
                out.append(body.as_str());
            },
            TfsError::RequestTimedOut { url } => {
                out.append("Request to ");
                append_url_text(&mut out, url);
                out.append(" timed out");
            },
            TfsError::TfsInternalServerError { url } => {
                out.append("TFS returned error for request to ");
                append_url_text(&mut out, url);
            },
            TfsError::AccessTokenNotProvided => {
                out.append(
                    "Environment variable SYSTEM_ACCESSTOKEN not set. Please make sure you activated 'Additional options > Allow scripts to access OAuth token' for your pipeline job! Otherwise, the timestamp for a TFVC changeset cannot be determined.",
                );
            },
            TfsError::InvalidAccessToken => {
                out.append(
                    "The access token provided via the environment variable SYSTEM_ACCESSTOKEN was not accepted by the TFS. Please make sure you activated 'Additional options > Allow scripts to access OAuth token' for your pipeline job, which will set the correct SYSTEM_ACCESSTOKEN environment variable! Otherwise, the timestamp for a TFVC changeset cannot be determined. Alternatively, you can provide a personal access token via the command line option --tfs-pat.",
                );
            },
            TfsError::DateStringCannotBeParsed { date_string } => {
                out.append("TFS returned unparsable date ");
                out.append(date_string.as_str());
            },
            TfsError::CannotReadRequestBody => {
                out.append("Failed to read request body");
            },
            TfsError::RequestStatusNotSuccessful { url, status } => {
                out.append("Request to ");
                out.append(url.as_str());
                out.append(" failed with status code ");
                crate::decimal::append_u64_dec(&mut out, *status as u64);
            },
            TfsError::OtherRequestError { url, status } => {
                out.append("Request to ");
                append_url_text(&mut out, url);
                out.append(" failed with HTTP status code ");
                match status {
                    Some(s) => crate::decimal::append_u64_dec(&mut out, *s as u64),
                    None => out.append("<no HTTP status>"),
                }
            },
        }
        proof {
            assert(out@ =~= spec_message(*self));
        }
        out
    }
}

/// Appends the URL an error names, or the placeholder for an unknown one.
fn append_url_text(out: &mut String, url: &Option<String>)
    ensures
        final(out)@ == old(out)@ + spec_url_text(*url),
{
    match url {
        Some(u) => out.append(u.as_str()),
        None => out.append("<no URL>"),
    }
}

/// A transport-level failure, reduced to what classification reads.
pub struct TransportFault {
    /// The request timed out.
    pub timed_out: bool,
    /// The URL the failure was reported for, when one is known.
    pub url: Option<String>,
    /// The HTTP status attached to the failure, when one is known.
    pub status: Option<u16>,
}

/// An HTTP response, reduced to what classification reads.
pub struct HttpResponse {
    /// The HTTP status code.
    pub status: u16,
    /// The redirect location header, when present and readable.
    pub location: Option<String>,
    /// The response body; absence means reading it failed.
    pub body: Option<String>,
}

/// What came back from sending the changeset request.
pub enum HttpOutcome {
    Fault(TransportFault),
    Response(HttpResponse),
}

/// A prepared changeset request: where to send it and how to authenticate.
pub struct TfsRequest {
    pub url: String,
    pub access_token: AccessToken,
}

/// What extracting the `createdDate` field from a response body yields:
/// `None` when the body is not JSON carrying that string field, otherwise the
/// field's characters.
pub uninterp spec fn created_date_of(body: Seq<char>) -> Option<Seq<char>>;

/// Relies on serde_json's `from_str`, `Value::get` and `Value::as_str`:
/// whether the body parses as JSON with a string field `createdDate`, and
/// that field's value, are functions of the body characters alone.
#[verifier::external_body]
fn json_created_date(body: &str) -> (r: Option<String>)
    ensures
        r is Some <==> created_date_of(body@) is Some,
        r matches Some(d) ==> created_date_of(body@) == Some(d@),
{
    match serde_json::from_str::<serde_json::Value>(body) {
        Ok(value) => match value.get("createdDate") {
            Some(date) => date.as_str().map(|s| s.to_string()),
            None => None,
        },
        Err(_) => None,
    }
}

/// The changeset REST endpoint under the collection URI.
pub open spec fn spec_changeset_url(
    collection_uri: Seq<char>,
    teamproject: Seq<char>,
    changeset: Seq<char>,
) -> Seq<char> {
    collection_uri + "/"@ + teamproject + "/_apis/tfvc/changesets/"@ + changeset
}

/// The response is the sign-in redirect the TFS sends for a rejected
/// credential: status 302 with a location naming the sign-in page.
pub open spec fn spec_is_signin_redirect(resp: HttpResponse) -> bool {
    &&& resp.status == 302
    &&& resp.location matches Some(l) && contains_seq(l@, "/_signin"@)
}

/// A success HTTP status.
pub open spec fn spec_status_success(status: u16) -> bool {
    200 <= status < 300
}

/// The error a transport fault is classified into: a timeout, a server
/// error, or any other request failure, in that order of precedence.
pub open spec fn spec_transport_error(f: TransportFault) -> TfsError {
    if f.timed_out {
        TfsError::RequestTimedOut { url: f.url }
    } else if f.status matches Some(s) && 500 <= s < 600 {
        TfsError::TfsInternalServerError { url: f.url }
    } else {
        TfsError::OtherRequestError { url: f.url, status: f.status }
    }
}

/// The timestamp a response yields when every classification step succeeds:
/// no sign-in redirect, a success status, a readable body holding a
/// `createdDate` field that parses as RFC 3339; written as epoch seconds
/// followed by the zero-padded sub-second milliseconds.
pub open spec fn spec_response_timestamp(resp: HttpResponse) -> Option<Seq<char>> {
    if spec_is_signin_redirect(resp) || !spec_status_success(resp.status) {
        None
    } else {
        match resp.body {
            None => None,
            Some(b) => match created_date_of(b@) {
                None => None,
                Some(d) => match rfc3339_instant(d) {
                    None => None,
                    Some(p) => Some(spec_idec(p.0) + spec_pad3(p.1)),
                },
            },
        }
    }
}

/// The timestamp an outcome yields: a fault yields none.
pub open spec fn spec_outcome_timestamp(outcome: HttpOutcome) -> Option<Seq<char>> {
    match outcome {
        HttpOutcome::Fault(_) => None,
        HttpOutcome::Response(resp) => spec_response_timestamp(resp),
    }
}

/// The timestamp of the whole backend: absent when one of the three backend
/// variables is unset, when no access token can be resolved, or when no
/// request outcome is available; otherwise what the outcome yields.
pub open spec fn spec_tfs_timestamp(
    env: Seq<(Seq<char>, Seq<char>)>,
    personal_access_token: Option<Seq<char>>,
    outcome: Option<HttpOutcome>,
) -> Option<Seq<char>> {
    let tp = spec_env_lookup(env, "SYSTEM_TEAMPROJECTID"@);
    let cs = spec_env_lookup(env, "BUILD_SOURCEVERSION"@);
    let cu = spec_env_lookup(env, "SYSTEM_TEAMFOUNDATIONCOLLECTIONURI"@);
    let oauth = spec_env_lookup(env, "SYSTEM_ACCESSTOKEN"@);
    if tp is None || cs is None || cu is None {
        None
    } else if personal_access_token is None && oauth is None {
        None
    } else {
        match outcome {
            None => None,
            Some(oc) => spec_outcome_timestamp(oc),
        }
    }
}

/// Round trip of the timestamp path: for a response whose `createdDate`
/// parses to a positive number of epoch seconds and sub-second milliseconds
/// below one thousand, the classified timestamp string is exactly the decimal
/// digits of `1000 * seconds + millis`, the epoch-millisecond value with
/// sub-second precision preserved.
pub proof fn lemma_tfs_timestamp_round_trip(resp: HttpResponse, seconds: int, millis: int)
    requires
        !spec_is_signin_redirect(resp),
        spec_status_success(resp.status),
        resp.body matches Some(b) && created_date_of(b@) matches Some(d) && rfc3339_instant(d)
            == Some((seconds, millis)),
        seconds >= 1,
        0 <= millis < 1000,
    ensures
        spec_response_timestamp(resp) == Some(
            crate::decimal::spec_udec((1000 * seconds + millis) as nat),
        ),
{
    crate::decimal::lemma_seconds_millis_digits(seconds, millis);
}

/// If the used credentials are invalid, the TFS sends a 302 status code and
/// redirects the user to the sign-in page.
pub fn is_tfs_signin_redirect(response: &HttpResponse) -> (r: bool)
    ensures
        r == spec_is_signin_redirect(*response),
{
    if response.status != 302 {
        return false;
    }
    match &response.location {
        Some(l) => str_contains(l.as_str(), "/_signin"),
        None => false,
    }
}

/// A copy of an optional string, equal to the original.
fn clone_opt_string(o: &Option<String>) -> (r: Option<String>)
    ensures
        r == *o,
{
    match o {
        Some(s) => Some(s.clone()),
        None => None,
    }
}

/// Classifies a transport fault, as the request sender's error conversion
/// does: timeouts first, then server errors, then everything else.
fn classify_transport(f: &TransportFault) -> (e: TfsError)
    ensures
        e == spec_transport_error(*f),
{
    let url = clone_opt_string(&f.url);
    if f.timed_out {
        TfsError::RequestTimedOut { url }
    } else {
        let is_server_error = match f.status {
            Some(s) => 500 <= s && s < 600,
            None => false,
        };
        if is_server_error {
            TfsError::TfsInternalServerError { url }
        } else {
            TfsError::OtherRequestError { url, status: f.status }
        }
    }
}

/// Parses a `createdDate` value as RFC 3339 and writes it as epoch seconds
/// followed by the zero-padded sub-second milliseconds.  Unlike the local
/// probes, this path preserves sub-second precision.
pub fn parse_date(date_string: String) -> (r: Result<String, TfsError>)
    ensures
        rfc3339_instant(date_string@) is None ==> (r matches Err(
            TfsError::DateStringCannotBeParsed { date_string: d },
        ) && d@ == date_string@),
        rfc3339_instant(date_string@) matches Some(p) ==> (r matches Ok(t) && t@ == spec_idec(p.0)
            + spec_pad3(p.1)),
{
    match parse_rfc3339(date_string.as_str()) {
        Some(p) => {
            let mut out = i64_to_dec_string(p.0);
            append_u32_pad3(&mut out, p.1);
            Ok(out)
        },
        None => Err(TfsError::DateStringCannotBeParsed { date_string }),
    }
}

/// Retrieves info from a TFVC repo through its REST interface.
pub struct Tfs<'a> {
    pub env_reader: &'a EnvReader,
}

impl<'a> Tfs<'a> {
    /// A client reading its configuration from the given environment.
    pub fn new(env_reader: &'a EnvReader) -> (t: Tfs<'a>)
        ensures
            t.env_reader == env_reader,
    {
        Tfs { env_reader }
    }

    /// The changeset REST URL under the collection URI.
    pub fn create_changeset_url(
        &self,
        collection_uri: String,
        teamproject: String,
        changeset: String,
    ) -> (r: String)
        ensures
            r@ == spec_changeset_url(collection_uri@, teamproject@, changeset@),
    {
        let ghost parts = (collection_uri@, teamproject@, changeset@);
        let mut url = collection_uri;
        url.append("/");
        url.append(teamproject.as_str());
        url.append("/_apis/tfvc/changesets/");
        url.append(changeset.as_str());
        proof {
            assert(url@ =~= spec_changeset_url(parts.0, parts.1, parts.2));
        }
        url
    }

    /// The OAuth token the CI system provides, or the error telling the
    /// operator that it is missing.
    pub fn get_access_token(&self) -> (r: Result<String, TfsError>)
        ensures
            match spec_env_lookup(self.env_reader@, "SYSTEM_ACCESSTOKEN"@) {
                Some(token) => r matches Ok(t) && t@ == token,
                None => r matches Err(TfsError::AccessTokenNotProvided),
            },
    {
        match self.env_reader.env_variable("SYSTEM_ACCESSTOKEN") {
            Some(token) => Ok(token),
            None => Err(TfsError::AccessTokenNotProvided),
        }
    }

    /// The access token to use: the caller-supplied personal token when
    /// present, else the OAuth token from the environment, whose absence is a
    /// hard error.
    pub fn resolve_access_token(&self, personal_access_token: Option<&String>) -> (r: Result<
        AccessToken,
        TfsError,
    >)
        ensures
            match personal_access_token {
                Some(t) => r matches Ok(AccessToken::Personal(s)) && s@ == t@,
                None => match spec_env_lookup(self.env_reader@, "SYSTEM_ACCESSTOKEN"@) {
                    Some(token) => r matches Ok(AccessToken::Oauth(s)) && s@ == token,
                    None => r matches Err(TfsError::AccessTokenNotProvided),
                },
            },
    {
        match personal_access_token {
            Some(token) => Ok(AccessToken::Personal((*token).clone())),
            None => match self.get_access_token() {
                Ok(token) => Ok(AccessToken::Oauth(token)),
                Err(e) => Err(e),
            },
        }
    }

    /// The changeset request this environment asks for: absence when one of
    /// the three backend variables is unset (the backend is inapplicable), an
    /// error when no access token can be resolved, and otherwise the URL with
    /// the token to authenticate with.
    pub fn prepare_request(&self, personal_access_token: Option<&String>) -> (r: Result<
        Option<TfsRequest>,
        TfsError,
    >)
        ensures
            ({
                let tp = spec_env_lookup(self.env_reader@, "SYSTEM_TEAMPROJECTID"@);
                let cs = spec_env_lookup(self.env_reader@, "BUILD_SOURCEVERSION"@);
                let cu = spec_env_lookup(self.env_reader@, "SYSTEM_TEAMFOUNDATIONCOLLECTIONURI"@);
                match (tp, cs, cu) {
                    (Some(tp_v), Some(cs_v), Some(cu_v)) => {
                        let oauth = spec_env_lookup(self.env_reader@, "SYSTEM_ACCESSTOKEN"@);
                        if personal_access_token is None && oauth is None {
                            r matches Err(TfsError::AccessTokenNotProvided)
                        } else {
                            r matches Ok(Some(req)) && req.url@ == spec_changeset_url(
                                cu_v,
                                tp_v,
                                cs_v,
                            ) && (match personal_access_token {
                                Some(t) => req.access_token matches AccessToken::Personal(s) && s@
                                    == t@,
                                None => req.access_token matches AccessToken::Oauth(s) && Some(s@)
                                    == oauth,
                            })
                        }
                    },
                    _ => r matches Ok(None),
                }
            }),
    {
        let teamproject = match self.env_reader.env_variable("SYSTEM_TEAMPROJECTID") {
            Some(v) => v,
            None => {
                return Ok(None);
            },
        };
        let changeset = match self.env_reader.env_variable("BUILD_SOURCEVERSION") {
            Some(v) => v,
            None => {
                return Ok(None);
            },
        };
        let collection_uri = match self.env_reader.env_variable(
            "SYSTEM_TEAMFOUNDATIONCOLLECTIONURI",
        ) {
            Some(v) => v,
            None => {
                return Ok(None);
            },
        };
        let access_token = match self.resolve_access_token(personal_access_token) {
            Ok(t) => t,
            Err(e) => {
                return Err(e);
            },
        };
        let url = self.create_changeset_url(collection_uri, teamproject, changeset);
        Ok(Some(TfsRequest { url, access_token }))
    }

    /// Reads the `createdDate` field out of a response body.
    pub fn parse_response(&self, body: &str) -> (r: Result<String, TfsError>)
        ensures
            match created_date_of(body@) {
                Some(d) => r matches Ok(date) && date@ == d,
                None => r matches Err(TfsError::JsonParseFailed { body: b }) && b@ == body@,
            },
    {
        match json_created_date(body) {
            Some(date) => Ok(date),
            None => Err(TfsError::JsonParseFailed { body: String::from_str(body) }),
        }
    }

    /// Classifies the outcome of the changeset request into a timestamp or an
    /// error: first the access token must be resolvable, then a transport
    /// fault is classified by its kind, a sign-in redirect means the
    /// credential was rejected, a non-success status is reported with the
    /// URL, and otherwise the body must hold a parsable `createdDate`.
    pub fn timestamp_or_error(
        &self,
        collection_uri: String,
        teamproject: String,
        changeset: String,
        personal_access_token: Option<&String>,
        outcome: &HttpOutcome,
    ) -> (r: Result<String, TfsError>)
        ensures
            ({
                let oauth = spec_env_lookup(self.env_reader@, "SYSTEM_ACCESSTOKEN"@);
                let url = spec_changeset_url(collection_uri@, teamproject@, changeset@);
                if personal_access_token is None && oauth is None {
                    r matches Err(TfsError::AccessTokenNotProvided)
                } else {
                    match *outcome {
                        HttpOutcome::Fault(f) => r matches Err(e) && e == spec_transport_error(f),
                        HttpOutcome::Response(resp) => {
                            if spec_is_signin_redirect(resp) {
                                r matches Err(TfsError::InvalidAccessToken)
                            } else if !spec_status_success(resp.status) {
                                r matches Err(TfsError::RequestStatusNotSuccessful { url: u, status })
                                    && u@ == url && status == resp.status
                            } else {
                                match resp.body {
                                    None => r matches Err(TfsError::CannotReadRequestBody),
                                    Some(b) => match created_date_of(b@) {
                                        None => r matches Err(TfsError::JsonParseFailed { body })
                                            && body@ == b@,
                                        Some(d) => match rfc3339_instant(d) {
                                            None => r matches Err(
                                                TfsError::DateStringCannotBeParsed { date_string },
                                            ) && date_string@ == d,
                                            Some(p) => r matches Ok(t) && t@ == spec_idec(p.0)
                                                + spec_pad3(p.1),
                                        },
                                    },
                                }
                            }
                        },
                    }
                }
            }),
    {
        // The caller authenticated with this same token; its absence is
        // reported before any outcome is interpreted.
        match self.resolve_access_token(personal_access_token) {
            Ok(_) => (),
            Err(e) => {
                return Err(e);
            },
        }
        let url = self.create_changeset_url(collection_uri, teamproject, changeset);
        match outcome {
            HttpOutcome::Fault(f) => Err(classify_transport(f)),
            HttpOutcome::Response(resp) => {
                if is_tfs_signin_redirect(resp) {
                    return Err(TfsError::InvalidAccessToken);
                }
                if !(resp.status >= 200 && resp.status < 300) {
                    return Err(TfsError::RequestStatusNotSuccessful { url, status: resp.status });
                }
                match &resp.body {
                    None => Err(TfsError::CannotReadRequestBody),
                    Some(b) => {
                        let created_date = match self.parse_response(b.as_str()) {
                            Ok(d) => d,
                            Err(e) => {
                                return Err(e);
                            },
                        };
                        parse_date(created_date)
                    },
                }
            },
        }
    }

    /// Guesses the timestamp of the changeset this build is for.  Absent when
    /// one of the three backend variables is unset, when no request outcome
    /// is available, or when classification ends in an error.
    pub fn timestamp(&self, personal_access_token: Option<&String>, outcome: Option<&HttpOutcome>)
        -> (r: Option<String>)
        ensures
            ({
                let pat = match personal_access_token {
                    Some(t) => Some(t@),
                    None => None::<Seq<char>>,
                };
                let oc = match outcome {
                    Some(o) => Some(*o),
                    None => None::<HttpOutcome>,
                };
                &&& r is Some <==> spec_tfs_timestamp(self.env_reader@, pat, oc) is Some
                &&& r matches Some(t) ==> spec_tfs_timestamp(self.env_reader@, pat, oc) == Some(
                    t@,
                )
            }),
    {
        let teamproject = match self.env_reader.env_variable("SYSTEM_TEAMPROJECTID") {
            Some(v) => v,
            None => {
                return None;
            },
        };
        let changeset = match self.env_reader.env_variable("BUILD_SOURCEVERSION") {
            Some(v) => v,
            None => {
                return None;
            },
        };
        let collection_uri = match self.env_reader.env_variable(
            "SYSTEM_TEAMFOUNDATIONCOLLECTIONURI",
        ) {
            Some(v) => v,
            None => {
                return None;
            },
        };
        let oc = match outcome {
            Some(oc) => oc,
            None => {
                return None;
            },
        };
        match self.timestamp_or_error(
            collection_uri,
            teamproject,
            changeset,
            personal_access_token,
            oc,
        ) {
            Ok(timestamp) => Some(timestamp),
            Err(_) => None,
        }
    }
}

} // verus!
