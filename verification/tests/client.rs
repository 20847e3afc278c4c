use clickup::auth::{ClickUpAuth, ClickUpConfig, EnvVars};
use clickup::client::{check_response, extract_error_message, is_success, pick_error_message};
use clickup::{ClickUpClient, ClickUpError};

const TEST_WORKSPACE_ID: &str = "42";
const TEST_CUSTOM_TASK_ID: &str = "TASK-123";

#[test]
fn client_build_url_keeps_clickup_api_prefix_for_v2_paths() {
    let client =
        ClickUpClient::new(ClickUpConfig::new(ClickUpAuth::personal("pk_123")).unwrap()).unwrap();

    let url = client
        .build_url(
            &format!("/api/v2/task/{TEST_CUSTOM_TASK_ID}"),
            &[
                ("custom_task_ids".to_owned(), "true".to_owned()),
                ("team_id".to_owned(), TEST_WORKSPACE_ID.to_owned()),
                ("include_subtasks".to_owned(), "true".to_owned()),
            ],
        )
        .unwrap();

    assert_eq!(
        url.as_str(),
        "https://api.clickup.com/api/v2/task/TASK-123?custom_task_ids=true&team_id=42&include_subtasks=true"
    );
}

#[test]
fn builder_with_explicit_auth_builds_successfully() {
    let client = ClickUpClient::builder()
        .auth(ClickUpAuth::personal("pk_test_123"))
        .build(&EnvVars::default());
    assert!(client.is_ok());
}

#[test]
fn builder_base_url_rejects_invalid_url() {
    let result = ClickUpClient::builder().base_url("not a url");
    assert!(result.is_err());
}

#[test]
fn build_url_without_query_and_with_encoding() {
    let client = ClickUpClient::new(
        ClickUpConfig::with_base_url(ClickUpAuth::personal("pk_1"), "https://example.com/base")
            .unwrap(),
    )
    .unwrap();
    let url = client.build_url("//api/v3/x", &[]).unwrap();
    assert_eq!(url.as_str(), "https://example.com/base/api/v3/x");
    let url = client
        .build_url("a", &[("q".to_owned(), "a b&c".to_owned())])
        .unwrap();
    assert_eq!(url.as_str(), "https://example.com/base/a?q=a+b%26c");
}

#[test]
fn builder_without_auth_reads_env() {
    let env = EnvVars {
        access_token: Some("tok".to_owned()),
        api_base_url: Some("https://example.org".to_owned()),
        ..EnvVars::default()
    };
    let client = ClickUpClient::builder().build(&env).unwrap();
    assert_eq!(
        client.config().auth(),
        &ClickUpAuth::OAuthAccessToken("tok".to_owned())
    );
    assert_eq!(client.config().base_url().as_str(), "https://example.org/");

    let client = ClickUpClient::builder()
        .base_url("https://example.net/v")
        .unwrap()
        .build(&env)
        .unwrap();
    assert_eq!(client.config().base_url().as_str(), "https://example.net/v/");

    let client = ClickUpClient::builder()
        .auth(ClickUpAuth::personal("pk_2"))
        .build(&env)
        .unwrap();
    assert_eq!(client.config().base_url().as_str(), "https://api.clickup.com/");
    assert_eq!(client.config().auth(), &ClickUpAuth::personal("pk_2"));
}

#[test]
fn builder_without_any_credentials_fails() {
    let result = ClickUpClient::builder().build(&EnvVars::default());
    assert!(matches!(result, Err(ClickUpError::MissingAuthToken)));
}

#[test]
fn control_characters_make_an_invalid_header() {
    let config = ClickUpConfig::new(ClickUpAuth::personal("pk_1\n2")).unwrap();
    assert!(matches!(
        ClickUpClient::new(config),
        Err(ClickUpError::InvalidHeader(_))
    ));
    let config = ClickUpConfig::new(ClickUpAuth::personal("pk_\u{7f}")).unwrap();
    assert!(matches!(
        ClickUpClient::new(config),
        Err(ClickUpError::InvalidHeader(_))
    ));
    let config = ClickUpConfig::new(ClickUpAuth::personal("pk_\té")).unwrap();
    assert!(ClickUpClient::new(config).is_ok());
}

#[test]
fn error_messages_are_extracted_in_order() {
    assert_eq!(extract_error_message(r#"{"err":"bad","message":"Nope"}"#), "Nope");
    assert_eq!(extract_error_message(r#"{"err":"bad","error":"worse"}"#), "bad");
    assert_eq!(extract_error_message(r#"{"error":"worse"}"#), "worse");
    assert_eq!(extract_error_message(r#" {"message":true} "#), r#"{"message":true}"#);
    assert_eq!(extract_error_message("  Gateway timeout\n"), "Gateway timeout");
    assert_eq!(extract_error_message(r#"["message"]"#), r#"["message"]"#);
}

#[test]
fn error_message_members_are_picked_in_order() {
    let some = |s: &str| Some(s.to_owned());
    assert_eq!(pick_error_message(some("a"), some("b"), some("c"), "body"), "a");
    assert_eq!(pick_error_message(None, some("b"), some("c"), "body"), "b");
    assert_eq!(pick_error_message(None, None, some("c"), "body"), "c");
    assert_eq!(pick_error_message(None, None, None, " body \t"), "body");
}

#[test]
fn responses_outside_2xx_are_http_errors() {
    assert!(is_success(200) && is_success(299));
    assert!(!is_success(199) && !is_success(300) && !is_success(404));
    assert_eq!(
        check_response(204, "ok".to_owned()).unwrap(),
        "ok".to_owned()
    );
    match check_response(401, r#"{"err":"Token invalid","ECODE":"OAUTH_025"}"#.to_owned()) {
        Err(ClickUpError::Http { status, message }) => {
            assert_eq!(status, 401);
            assert_eq!(message, "Token invalid");
        }
        other => panic!("unexpected {other:?}"),
    }
}
