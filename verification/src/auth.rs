//! Credentials for the ClickUp API.

use vstd::prelude::*;

use crate::api_url::{url_parse, ApiUrl};
use crate::error::ClickUpError;
use crate::text::{
    ends_with_char, is_space, lemma_trim_ends, lemma_trim_idempotent, lemma_trim_of_trimmed,
    strip_prefix, strip_prefix_str, trim, trim_str,
};

verus! {

/// The authentication method used when talking to the ClickUp API.
///
/// - A personal API key (`pk_...`) is sent as the bare `Authorization` value.
/// - An OAuth access token is sent as `Bearer <token>`.
#[derive(Clone, Debug, Eq, PartialEq)]
pub enum ClickUpAuth {
    /// A ClickUp personal API key (starts with `pk_`).
    PersonalApiKey(String),
    /// An OAuth 2.0 access token, sent with a `Bearer` prefix.
    OAuthAccessToken(String),
}

/// The default ClickUp API base URL.
pub const DEFAULT_BASE_URL: &'static str = "https://api.clickup.com/";

/// `a` is an OAuth token (when `oauth`) or a personal key (otherwise) whose
/// text is `token`.
pub open spec fn auth_is(a: ClickUpAuth, oauth: bool, token: Seq<char>) -> bool {
    match a {
        ClickUpAuth::PersonalApiKey(t) => !oauth && t@ == token,
        ClickUpAuth::OAuthAccessToken(t) => oauth && t@ == token,
    }
}

/// `a` is what a raw `Authorization` header value `value` denotes: after
/// trimming, a value that starts with `"Bearer "` is an OAuth token (the rest,
/// trimmed), anything else a personal key.
pub open spec fn is_authorization_of(a: ClickUpAuth, value: Seq<char>) -> bool {
    match strip_prefix(trim(value), "Bearer "@) {
        Some(rest) => auth_is(a, true, trim(rest)),
        None => auth_is(a, false, trim(value)),
    }
}

/// The ClickUp variables of a process environment; a variable that is unset
/// or not valid Unicode is `None`.
#[derive(Clone, Debug, Default)]
pub struct EnvVars {
    /// `CLICKUP_API_TOKEN`.
    pub api_token: Option<String>,
    /// `CLICKUP_ACCESS_TOKEN`.
    pub access_token: Option<String>,
    /// `CLICKUP_OAUTH_ACCESS_TOKEN`.
    pub oauth_access_token: Option<String>,
    /// `CLICKUP_API_BASE_URL`.
    pub api_base_url: Option<String>,
}

/// Some credential variable is set.
pub open spec fn env_has_auth(env: EnvVars) -> bool {
    env.api_token is Some || env.access_token is Some || env.oauth_access_token is Some
}

/// `a` is the credential that `env` gives: `CLICKUP_API_TOKEN` read as an
/// `Authorization` value, else `CLICKUP_ACCESS_TOKEN`, else
/// `CLICKUP_OAUTH_ACCESS_TOKEN`, the last two as OAuth tokens.
pub open spec fn is_env_auth(a: ClickUpAuth, env: EnvVars) -> bool {
    match env.api_token {
        Some(t) => is_authorization_of(a, t@),
        None => match env.access_token {
            Some(t) => auth_is(a, true, trim(t@)),
            None => match env.oauth_access_token {
                Some(t) => auth_is(a, true, trim(t@)),
                None => false,
            },
        },
    }
}

impl ClickUpAuth {
    /// Creates a personal API key; surrounding white space is removed.
    pub fn personal(token: &str) -> (r: Self)
        ensures
            r matches ClickUpAuth::PersonalApiKey(t) && t@ == trim(token@),
    {
        ClickUpAuth::PersonalApiKey(trim_str(token))
    }

    /// Creates an OAuth access token; surrounding white space is removed.
    pub fn oauth(token: &str) -> (r: Self)
        ensures
            r matches ClickUpAuth::OAuthAccessToken(t) && t@ == trim(token@),
    {
        ClickUpAuth::OAuthAccessToken(trim_str(token))
    }

    /// The `Authorization` header value for these credentials.
    pub open spec fn header_text(self) -> Seq<char> {
        match self {
            ClickUpAuth::PersonalApiKey(t) => t@,
            ClickUpAuth::OAuthAccessToken(t) => "Bearer "@ + t@,
        }
    }

    /// Returns the value to use for the `Authorization` HTTP header: personal
    /// keys as they are, OAuth tokens prefixed with `"Bearer "`.
    pub fn header_value(&self) -> (r: String)
        ensures
            r@ == self.header_text(),
    {
        match self {
            ClickUpAuth::PersonalApiKey(token) => token.clone(),
            ClickUpAuth::OAuthAccessToken(token) => "Bearer ".to_owned().concat(token.as_str()),
        }
    }

    /// Parses a raw `Authorization` header value: after trimming, values
    /// starting with `"Bearer "` are OAuth tokens; everything else is a
    /// personal API key.
    pub fn from_authorization_value(value: &str) -> (r: Self)
        ensures
            is_authorization_of(r, value@),
    {
        let trimmed = trim_str(value);
        proof {
            lemma_trim_idempotent(value@);
        }
        match strip_prefix_str(trimmed.as_str(), "Bearer ") {
            Some(token) => ClickUpAuth::oauth(token.as_str()),
            None => ClickUpAuth::personal(trimmed.as_str()),
        }
    }

    /// Reads credentials from the ClickUp environment variables, in order
    /// `CLICKUP_API_TOKEN` (read by [`ClickUpAuth::from_authorization_value`]),
    /// `CLICKUP_ACCESS_TOKEN`, `CLICKUP_OAUTH_ACCESS_TOKEN` (OAuth tokens).
    pub fn from_env_vars(env: &EnvVars) -> (r: Result<Self, ClickUpError>)
        ensures
            r is Ok <==> env_has_auth(*env),
            r matches Ok(a) ==> is_env_auth(a, *env),
            r matches Err(e) ==> e is MissingAuthToken,
    {
        if let Some(token) = &env.api_token {
            return Ok(ClickUpAuth::from_authorization_value(token.as_str()));
        }
        if let Some(token) = &env.access_token {
            return Ok(ClickUpAuth::oauth(token.as_str()));
        }
        if let Some(token) = &env.oauth_access_token {
            return Ok(ClickUpAuth::oauth(token.as_str()));
        }
        Err(ClickUpError::MissingAuthToken)
    }
}

/// The URL that a configured base URL `s` is parsed from: `s` trimmed, with a
/// `/` appended unless it already ends with one.
pub open spec fn normalized_base_url(s: Seq<char>) -> Seq<char> {
    let raw = trim(s);
    if raw.len() > 0 && raw.last() == '/' {
        raw
    } else {
        raw.push('/')
    }
}

/// Configuration of a ClickUp client: credentials and API base URL.
#[derive(Clone, Debug)]
pub struct ClickUpConfig {
    auth: ClickUpAuth,
    base_url: ApiUrl,
}

impl ClickUpConfig {
    /// The credentials.
    pub closed spec fn spec_auth(self) -> ClickUpAuth {
        self.auth
    }

    /// The serialization of the base URL.
    pub closed spec fn spec_base_url(self) -> Seq<char> {
        self.base_url@
    }

    /// Whether `c` is the configuration that [`ClickUpConfig::with_base_url`]
    /// makes of `auth` and `base_url`.
    pub open spec fn is_config_of(c: ClickUpConfig, auth: ClickUpAuth, base_url: Seq<char>) -> bool {
        &&& c.spec_auth() == auth
        &&& url_parse(normalized_base_url(base_url)) == Some(c.spec_base_url())
    }

    /// Creates a config targeting the default ClickUp API base URL.
    pub fn new(auth: ClickUpAuth) -> (r: Result<Self, ClickUpError>)
        ensures
            r is Ok <==> url_parse(normalized_base_url(DEFAULT_BASE_URL@)) is Some,
            r matches Ok(c) ==> Self::is_config_of(c, auth, DEFAULT_BASE_URL@),
            r matches Err(e) ==> e is InvalidBaseUrl,
    {
        Self::with_base_url(auth, DEFAULT_BASE_URL)
    }

    /// Creates a config with a custom base URL: the URL is trimmed and a
    /// trailing `/` is added if it does not already end with one.
    pub fn with_base_url(auth: ClickUpAuth, base_url: &str) -> (r: Result<Self, ClickUpError>)
        ensures
            r is Ok <==> url_parse(normalized_base_url(base_url@)) is Some,
            r matches Ok(c) ==> Self::is_config_of(c, auth, base_url@),
            r matches Err(e) ==> e is InvalidBaseUrl,
    {
        let raw = trim_str(base_url);
        let normalized = if ends_with_char(raw.as_str(), '/') {
            raw
        } else {
            raw.concat("/")
        };
        proof {
            reveal_strlit("/");
            assert(normalized@ =~= normalized_base_url(base_url@));
        }
        match ApiUrl::parse(normalized.as_str()) {
            Ok(url) => Ok(ClickUpConfig { auth, base_url: url }),
            Err(e) => Err(ClickUpError::InvalidBaseUrl(e)),
        }
    }

    /// Creates a config from the environment: credentials as
    /// [`ClickUpAuth::from_env_vars`] reads them, and `CLICKUP_API_BASE_URL`
    /// as base URL when it is set.
    pub fn from_env_vars(env: &EnvVars) -> (r: Result<Self, ClickUpError>)
        ensures
            !env_has_auth(*env) ==> r matches Err(ClickUpError::MissingAuthToken),
            env_has_auth(*env) ==> {
                let base = match env.api_base_url {
                    Some(u) => u@,
                    None => DEFAULT_BASE_URL@,
                };
                &&& r is Ok <==> url_parse(normalized_base_url(base)) is Some
                &&& r matches Ok(c) ==> is_env_auth(c.spec_auth(), *env)
                    && url_parse(normalized_base_url(base)) == Some(c.spec_base_url())
                &&& r matches Err(e) ==> e is InvalidBaseUrl
            },
    {
        let auth = match ClickUpAuth::from_env_vars(env) {
            Ok(a) => a,
            Err(e) => return Err(e),
        };
        match &env.api_base_url {
            Some(base_url) => Self::with_base_url(auth, base_url.as_str()),
            None => Self::new(auth),
        }
    }

    /// Returns the authentication credentials.
    pub fn auth(&self) -> (r: &ClickUpAuth)
        ensures
            *r == self.spec_auth(),
    {
        &self.auth
    }

    /// Returns the API base URL.
    pub fn base_url(&self) -> (r: &ApiUrl)
        ensures
            r@ == self.spec_base_url(),
    {
        &self.base_url
    }
}


/// Whether `a` is an OAuth token.
pub open spec fn is_oauth(a: ClickUpAuth) -> bool {
    a is OAuthAccessToken
}

/// The token text of `a`.
pub open spec fn token_text(a: ClickUpAuth) -> Seq<char> {
    match a {
        ClickUpAuth::PersonalApiKey(t) => t@,
        ClickUpAuth::OAuthAccessToken(t) => t@,
    }
}

proof fn lemma_oauth_header_round_trip(t: Seq<char>)
    requires
        trim(t) == t,
        t.len() > 0,
    ensures
        strip_prefix(trim("Bearer "@ + t), "Bearer "@) == Some(t),
{
    reveal_strlit("Bearer ");
    lemma_trim_ends(t);
    let h = "Bearer "@ + t;
    assert(h[0] == 'B');
    assert(h.last() == t.last());
    lemma_trim_of_trimmed(h);
    assert(h.take(7) =~= "Bearer "@);
    assert(h.skip(7) =~= t);
}

/// Reading back the `Authorization` value of credentials gives the same
/// credentials, for every token that the constructors can make (a trimmed
/// one), except an empty OAuth token (whose header `"Bearer "` trims to
/// `"Bearer"`) and a personal key that itself starts with `"Bearer "`.
pub proof fn lemma_authorization_round_trip(a: ClickUpAuth, b: ClickUpAuth)
    requires
        trim(token_text(a)) == token_text(a),
        is_oauth(a) ==> token_text(a).len() > 0,
        !is_oauth(a) ==> strip_prefix(token_text(a), "Bearer "@) is None,
        is_authorization_of(b, a.header_text()),
    ensures
        auth_is(b, is_oauth(a), token_text(a)),
{
    let t = token_text(a);
    if is_oauth(a) {
        lemma_oauth_header_round_trip(t);
    } else {
        assert(a.header_text() == t);
    }
}

/// `s` starts with `Bearer `.
pub open spec fn starts_with_bearer(s: Seq<char>) -> bool {
    s.len() >= 7 && s.take(7) == "Bearer "@
}

/// The credentials read from `CLICKUP_API_TOKEN` are what its value denotes as
/// an `Authorization` value, whatever the other variables hold: a value that,
/// trimmed, does not start with `Bearer ` is a personal API key whose header is
/// that trimmed value itself; one that does is an OAuth token, the rest of the
/// value trimmed.
pub proof fn lemma_env_api_token_is_authorization_value(a: ClickUpAuth, env: EnvVars, t: String)
    requires
        env.api_token == Some(t),
        is_env_auth(a, env),
    ensures
        !starts_with_bearer(trim(t@)) ==> a is PersonalApiKey && token_text(a) == trim(t@)
            && a.header_text() == trim(t@),
        starts_with_bearer(trim(t@)) ==> a is OAuthAccessToken && token_text(a) == trim(
            trim(t@).skip(7),
        ) && a.header_text() == "Bearer "@ + trim(trim(t@).skip(7)),
{
    reveal_strlit("Bearer ");
}

/// Normalizing a base URL that is already normalized changes nothing: it
/// ends with `/` and carries no surrounding white space.
pub proof fn lemma_normalized_base_url_stable(s: Seq<char>)
    ensures
        normalized_base_url(s).len() > 0,
        normalized_base_url(s).last() == '/',
        normalized_base_url(normalized_base_url(s)) == normalized_base_url(s),
{
    let raw = trim(s);
    let n = normalized_base_url(s);
    lemma_trim_ends(s);
    assert(!is_space('/'));
    if raw.len() > 0 {
        assert(n[0] == raw[0]);
    }
    lemma_trim_of_trimmed(n);
}

} // verus!
