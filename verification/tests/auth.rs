use clickup::auth::{ClickUpAuth, ClickUpConfig, EnvVars, DEFAULT_BASE_URL};
use clickup::ClickUpError;

#[test]
fn auth_personal_tokens_are_sent_as_is() {
    let auth = ClickUpAuth::personal("pk_123");
    assert_eq!(auth.header_value(), "pk_123");
}

#[test]
fn auth_oauth_tokens_are_sent_with_bearer_prefix() {
    let auth = ClickUpAuth::oauth("abc");
    assert_eq!(auth.header_value(), "Bearer abc");
}

#[test]
fn auth_base_url_is_normalized_with_trailing_slash() {
    let config =
        ClickUpConfig::with_base_url(ClickUpAuth::personal("pk_123"), "https://example.com")
            .expect("valid config");
    assert_eq!(config.base_url().as_str(), "https://example.com/");
}

#[test]
fn tokens_are_trimmed() {
    assert_eq!(
        ClickUpAuth::personal("  pk_1\t\n"),
        ClickUpAuth::PersonalApiKey("pk_1".to_owned())
    );
    assert_eq!(
        ClickUpAuth::oauth("\u{3000}tok "),
        ClickUpAuth::OAuthAccessToken("tok".to_owned())
    );
}

#[test]
fn authorization_values_with_bearer_prefix_are_oauth() {
    assert_eq!(
        ClickUpAuth::from_authorization_value("  Bearer  abc "),
        ClickUpAuth::OAuthAccessToken("abc".to_owned())
    );
    assert_eq!(
        ClickUpAuth::from_authorization_value("pk_9"),
        ClickUpAuth::PersonalApiKey("pk_9".to_owned())
    );
    assert_eq!(
        ClickUpAuth::from_authorization_value("bearer abc"),
        ClickUpAuth::PersonalApiKey("bearer abc".to_owned())
    );
    assert_eq!(
        ClickUpAuth::from_authorization_value("Bearer "),
        ClickUpAuth::PersonalApiKey("Bearer".to_owned())
    );
}

#[test]
fn header_values_read_back_as_the_same_credentials() {
    for auth in [ClickUpAuth::personal("pk_live_1"), ClickUpAuth::oauth("tok en")] {
        assert_eq!(ClickUpAuth::from_authorization_value(&auth.header_value()), auth);
    }
}

#[test]
fn env_api_token_takes_precedence() {
    let env = EnvVars {
        api_token: Some("Bearer xyz".to_owned()),
        access_token: Some("other".to_owned()),
        oauth_access_token: Some("third".to_owned()),
        api_base_url: None,
    };
    assert_eq!(
        ClickUpAuth::from_env_vars(&env).unwrap(),
        ClickUpAuth::OAuthAccessToken("xyz".to_owned())
    );
}

#[test]
fn env_access_tokens_are_oauth() {
    let env = EnvVars {
        oauth_access_token: Some(" third ".to_owned()),
        ..EnvVars::default()
    };
    assert_eq!(
        ClickUpAuth::from_env_vars(&env).unwrap(),
        ClickUpAuth::OAuthAccessToken("third".to_owned())
    );
    let env = EnvVars {
        access_token: Some("second".to_owned()),
        oauth_access_token: Some("third".to_owned()),
        ..EnvVars::default()
    };
    assert_eq!(
        ClickUpAuth::from_env_vars(&env).unwrap(),
        ClickUpAuth::OAuthAccessToken("second".to_owned())
    );
}

#[test]
fn env_without_credentials_is_missing_auth_token() {
    let result = ClickUpAuth::from_env_vars(&EnvVars::default());
    assert!(matches!(result, Err(ClickUpError::MissingAuthToken)));
    let result = ClickUpConfig::from_env_vars(&EnvVars::default());
    assert!(matches!(result, Err(ClickUpError::MissingAuthToken)));
}

#[test]
fn default_base_url_is_clickup_api() {
    let config = ClickUpConfig::new(ClickUpAuth::personal("pk_1")).unwrap();
    assert_eq!(config.base_url().as_str(), DEFAULT_BASE_URL);
    assert_eq!(config.auth(), &ClickUpAuth::personal("pk_1"));
}

#[test]
fn env_base_url_is_trimmed_and_normalized() {
    let env = EnvVars {
        api_token: Some("pk_1".to_owned()),
        api_base_url: Some("  https://example.com/api  ".to_owned()),
        ..EnvVars::default()
    };
    let config = ClickUpConfig::from_env_vars(&env).unwrap();
    assert_eq!(config.base_url().as_str(), "https://example.com/api/");
}

#[test]
fn invalid_base_url_is_rejected() {
    let result = ClickUpConfig::with_base_url(ClickUpAuth::personal("pk_1"), "not a url");
    assert!(matches!(result, Err(ClickUpError::InvalidBaseUrl(_))));
}

#[test]
fn normalized_base_urls_are_stable() {
    for raw in ["https://example.com", " https://example.com/x ", "https://example.com/x/"] {
        let once = ClickUpConfig::with_base_url(ClickUpAuth::personal("pk_1"), raw).unwrap();
        let again =
            ClickUpConfig::with_base_url(ClickUpAuth::personal("pk_1"), once.base_url().as_str())
                .unwrap();
        assert_eq!(once.base_url().as_str(), again.base_url().as_str());
        assert!(once.base_url().as_str().ends_with('/'));
    }
}
