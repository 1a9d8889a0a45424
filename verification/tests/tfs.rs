use teamscale_timestamp::env_reader::EnvReader;
use teamscale_timestamp::tfs::parse_date;
use teamscale_timestamp::tfs::HttpOutcome;
use teamscale_timestamp::tfs::HttpResponse;
use teamscale_timestamp::tfs::Tfs;
use teamscale_timestamp::tfs::TfsError;
use teamscale_timestamp::tfs::TransportFault;

fn pair(name: &str, value: &str) -> (String, String) {
    (name.to_string(), value.to_string())
}

fn backend_env() -> Vec<(String, String)> {
    vec![
        pair("SYSTEM_TEAMPROJECTID", "TestData"),
        pair("BUILD_SOURCEVERSION", "27754"),
        pair(
            "SYSTEM_TEAMFOUNDATIONCOLLECTIONURI",
            "https://example.visualstudio.com",
        ),
    ]
}

fn response(status: u16, location: Option<&str>, body: Option<&str>) -> HttpOutcome {
    HttpOutcome::Response(HttpResponse {
        status,
        location: location.map(|l| l.to_string()),
        body: body.map(|b| b.to_string()),
    })
}

const CHANGESET_JSON: &str = r#"{"changesetId":27754,"createdDate":"2019-03-10T15:27:14.803Z","comment":"baseless merge"}"#;

#[test]
fn test_parse_tfs_response() {
    let json = r#"{"changesetId":27754,"url":"https://cqse.visualstudio.com/TestData/_apis/tfvc/changesets/27754","author":{"displayName":"CQSE GmbH","url":"https://spsprodweu1.vssps.visualstudio.com/A40e1a985-f6b9-41c2-8e31-7910c058755e/_apis/Identities/fb6b0c50-f0de-4fa2-81d0-550522b54f49","id":"fb6b0c50-f0de-4fa2-81d0-550522b54f49","uniqueName":"microsoft@cqse.eu","imageUrl":"https://cqse.visualstudio.com/_api/_common/identityImage?id=fb6b0c50-f0de-4fa2-81d0-550522b54f49"},"checkedInBy":{"displayName":"CQSE GmbH","url":"https://spsprodweu1.vssps.visualstudio.com/A40e1a985-f6b9-41c2-8e31-7910c058755e/_apis/Identities/fb6b0c50-f0de-4fa2-81d0-550522b54f49","id":"fb6b0c50-f0de-4fa2-81d0-550522b54f49","uniqueName":"microsoft@cqse.eu","imageUrl":"https://cqse.visualstudio.com/_api/_common/identityImage?id=fb6b0c50-f0de-4fa2-81d0-550522b54f49"},"createdDate":"2019-03-10T15:27:14.803Z","comment":"baseless merge v1.5 -> v2","_links":{"self":{"href":"https://cqse.visualstudio.com/TestData/_apis/tfvc/changesets/27754"},"changes":{"href":"https://cqse.visualstudio.com/_apis/tfvc/changesets/27754/changes"},"workItems":{"href":"https://cqse.visualstudio.com/_apis/tfvc/changesets/27754/workItems"},"web":{"href":"https://cqse.visualstudio.com/TestData/_versionControl/changeset/27754"},"author":{"href":"https://spsprodweu1.vssps.visualstudio.com/A40e1a985-f6b9-41c2-8e31-7910c058755e/_apis/Identities/fb6b0c50-f0de-4fa2-81d0-550522b54f49"},"checkedInBy":{"href":"https://spsprodweu1.vssps.visualstudio.com/A40e1a985-f6b9-41c2-8e31-7910c058755e/_apis/Identities/fb6b0c50-f0de-4fa2-81d0-550522b54f49"}}}"#;
    let env = EnvReader::new(vec![]);
    let tfs = Tfs::new(&env);
    let created_date = tfs.parse_response(json).unwrap();
    assert_eq!(created_date, "2019-03-10T15:27:14.803Z");
}

#[test]
fn test_parse_timestamp() {
    assert_eq!(
        parse_date("2019-03-10T15:27:14.003Z".to_string()).ok(),
        Some("1552231634003".to_string())
    );
    assert_eq!(
        parse_date("2019-03-10T15:27:14.803-01:00".to_string()).ok(),
        Some("1552235234803".to_string())
    );
}

#[test]
fn created_date_keeps_subsecond_precision() {
    assert_eq!(
        parse_date("2019-03-10T15:27:14.803Z".to_string()).ok(),
        Some("1552231634803".to_string())
    );
}

#[test]
fn signin_redirect_means_invalid_access_token() {
    let env = EnvReader::new(vec![]);
    let tfs = Tfs::new(&env);
    let token = "invalid".to_string();
    let result = tfs.timestamp_or_error(
        "https://example.visualstudio.com".to_string(),
        "TestData".to_string(),
        "27754".to_string(),
        Some(&token),
        &response(302, Some("https://example.visualstudio.com/_signin?x=1"), None),
    );
    assert!(matches!(result, Err(TfsError::InvalidAccessToken)));
}

#[test]
fn missing_access_token_is_reported() {
    let env = EnvReader::new(backend_env());
    let tfs = Tfs::new(&env);
    let result = tfs.timestamp_or_error(
        "https://example.visualstudio.com".to_string(),
        "TestData".to_string(),
        "27754".to_string(),
        None,
        &response(200, None, Some(CHANGESET_JSON)),
    );
    assert!(matches!(result, Err(TfsError::AccessTokenNotProvided)));
    assert_eq!(
        None,
        tfs.timestamp(None, Some(&response(200, None, Some(CHANGESET_JSON))))
    );
}

#[test]
fn timestamp_happy_path() {
    let mut entries = backend_env();
    entries.push(pair("SYSTEM_ACCESSTOKEN", "SECRET-REDACTED"));
    let env = EnvReader::new(entries);
    let tfs = Tfs::new(&env);
    let outcome = response(200, None, Some(CHANGESET_JSON));
    assert_eq!(
        Some("1552231634803".to_string()),
        tfs.timestamp(None, Some(&outcome))
    );
}

#[test]
fn inapplicable_backend_yields_absence() {
    let env = EnvReader::new(vec![pair("SYSTEM_TEAMPROJECTID", "TestData")]);
    let tfs = Tfs::new(&env);
    assert_eq!(None, tfs.timestamp(None, None));
}

#[test]
fn non_success_status_is_reported_with_url() {
    let env = EnvReader::new(vec![]);
    let tfs = Tfs::new(&env);
    let token = "t".to_string();
    let result = tfs.timestamp_or_error(
        "https://example.visualstudio.com".to_string(),
        "TestData".to_string(),
        "27754".to_string(),
        Some(&token),
        &response(404, None, None),
    );
    match result {
        Err(TfsError::RequestStatusNotSuccessful { url, status }) => {
            assert_eq!(
                url,
                "https://example.visualstudio.com/TestData/_apis/tfvc/changesets/27754"
            );
            assert_eq!(status, 404);
        }
        other => panic!("incorrect error type: {:?}", other),
    }
}

#[test]
fn unreadable_body_is_reported() {
    let env = EnvReader::new(vec![]);
    let tfs = Tfs::new(&env);
    let token = "t".to_string();
    let result = tfs.timestamp_or_error(
        "https://example.visualstudio.com".to_string(),
        "TestData".to_string(),
        "27754".to_string(),
        Some(&token),
        &response(200, None, None),
    );
    assert!(matches!(result, Err(TfsError::CannotReadRequestBody)));
}

#[test]
fn unparseable_body_is_reported() {
    let env = EnvReader::new(vec![]);
    let tfs = Tfs::new(&env);
    let token = "t".to_string();
    let result = tfs.timestamp_or_error(
        "https://example.visualstudio.com".to_string(),
        "TestData".to_string(),
        "27754".to_string(),
        Some(&token),
        &response(200, None, Some("not json at all")),
    );
    assert!(matches!(result, Err(TfsError::JsonParseFailed { .. })));
}

#[test]
fn unparseable_date_is_reported() {
    let env = EnvReader::new(vec![]);
    let tfs = Tfs::new(&env);
    let token = "t".to_string();
    let result = tfs.timestamp_or_error(
        "https://example.visualstudio.com".to_string(),
        "TestData".to_string(),
        "27754".to_string(),
        Some(&token),
        &response(200, None, Some(r#"{"createdDate":"tomorrow"}"#)),
    );
    assert!(matches!(
        result,
        Err(TfsError::DateStringCannotBeParsed { .. })
    ));
}

#[test]
fn transport_faults_are_classified() {
    let env = EnvReader::new(vec![]);
    let tfs = Tfs::new(&env);
    let token = "t".to_string();
    let classify = |fault: TransportFault| {
        tfs.timestamp_or_error(
            "https://example.visualstudio.com".to_string(),
            "TestData".to_string(),
            "27754".to_string(),
            Some(&token),
            &HttpOutcome::Fault(fault),
        )
    };
    assert!(matches!(
        classify(TransportFault {
            timed_out: true,
            url: None,
            status: None,
        }),
        Err(TfsError::RequestTimedOut { .. })
    ));
    assert!(matches!(
        classify(TransportFault {
            timed_out: false,
            url: Some("https://example.visualstudio.com".to_string()),
            status: Some(500),
        }),
        Err(TfsError::TfsInternalServerError { .. })
    ));
    assert!(matches!(
        classify(TransportFault {
            timed_out: false,
            url: None,
            status: Some(400),
        }),
        Err(TfsError::OtherRequestError { .. })
    ));
}

#[test]
fn error_messages_carry_context() {
    assert_eq!(
        "Request to https://example.visualstudio.com failed with status code 404",
        TfsError::RequestStatusNotSuccessful {
            url: "https://example.visualstudio.com".to_string(),
            status: 404,
        }
        .message()
    );
    assert_eq!(
        "Request to <no URL> timed out",
        TfsError::RequestTimedOut { url: None }.message()
    );
    assert_eq!(
        "Request to <no URL> failed with HTTP status code 400",
        TfsError::OtherRequestError {
            url: None,
            status: Some(400),
        }
        .message()
    );
    assert_eq!(
        "TFS returned unparsable date tomorrow",
        TfsError::DateStringCannotBeParsed {
            date_string: "tomorrow".to_string(),
        }
        .message()
    );
}

#[test]
fn prepare_request_builds_url_and_token() {
    let mut entries = backend_env();
    entries.push(pair("SYSTEM_ACCESSTOKEN", "SECRET-REDACTED"));
    let env = EnvReader::new(entries);
    let tfs = Tfs::new(&env);
    let request = tfs.prepare_request(None).unwrap().unwrap();
    assert_eq!(
        request.url,
        "https://example.visualstudio.com/TestData/_apis/tfvc/changesets/27754"
    );
}
