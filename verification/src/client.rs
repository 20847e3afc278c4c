//! The ClickUp HTTP client: construction, request URLs and response checks.
//!
//! Sending requests is left to the caller, who hands the library the status
//! and body of each response.

use vstd::prelude::*;
use vstd::utf8::{encode_utf8, is_ascii_chars, is_ascii_chars_encode_utf8};

use crate::api_url::{url_append_pair, url_join, url_parse, ApiUrl};
use crate::auth::{
    env_has_auth, is_env_auth, normalized_base_url, starts_with_bearer, ClickUpAuth, ClickUpConfig, EnvVars,
    DEFAULT_BASE_URL,
};
use crate::error::ClickUpError;
use crate::http::{
    header_byte_ok, header_text_valid, header_value_from_str, http_client_with_headers,
    request_headers, HttpClient,
};
use crate::focus::opt_view;
use crate::text::{strip_prefix, trim, trim_start_char, trim_start_char_str, trim_str};

verus! {

proof fn lemma_printable_ascii_header(s: Seq<char>)
    requires
        forall|i: int| 0 <= i < s.len() ==> ' ' <= #[trigger] s[i] <= '~',
    ensures
        header_text_valid(s),
{
    assert(is_ascii_chars(s));
    is_ascii_chars_encode_utf8(s);
    assert forall|i: int| 0 <= i < encode_utf8(s).len() implies header_byte_ok(
        #[trigger] encode_utf8(s)[i],
    ) by {
        assert(s[i] as u8 == encode_utf8(s)[i]);
    }
}

/// The `(name, value)` texts of a query.
pub open spec fn query_view(q: Seq<(String, String)>) -> Seq<(Seq<char>, Seq<char>)> {
    q.map_values(|p: (String, String)| (p.0@, p.1@))
}

/// `url` after appending each pair of `pairs`, in order, to its query.
pub open spec fn with_query_pairs(url: Seq<char>, pairs: Seq<(Seq<char>, Seq<char>)>) -> Seq<char>
    decreases pairs.len(),
{
    if pairs.len() == 0 {
        url
    } else {
        url_append_pair(with_query_pairs(url, pairs.drop_last()), pairs.last().0, pairs.last().1)
    }
}

/// The URL of a request: `path` without its leading slashes, joined to
/// `base`, with the query pairs appended in order.
pub open spec fn built_url(
    base: Seq<char>,
    path: Seq<char>,
    pairs: Seq<(Seq<char>, Seq<char>)>,
) -> Option<Seq<char>> {
    match url_join(base, trim_start_char(path, '/')) {
        Some(u) => Some(with_query_pairs(u, pairs)),
        None => None,
    }
}

/// An HTTP client for the ClickUp API.
#[derive(Clone, Debug)]
pub struct ClickUpClient {
    http: HttpClient,
    config: ClickUpConfig,
}

impl ClickUpClient {
    /// The configuration the client was made with.
    pub closed spec fn spec_config(self) -> ClickUpConfig {
        self.config
    }

    /// The HTTP client that the client holds.
    pub closed spec fn spec_http(self) -> reqwest::Client {
        self.http.spec_client()
    }

    /// The default headers of the HTTP client: the headers it adds to every
    /// request, as `(name, value)` texts.
    pub closed spec fn spec_default_headers(self) -> Seq<(Seq<char>, Seq<char>)> {
        self.http@
    }

    /// Creates a client from `config`: every request carries
    /// `Accept: application/json` and the credentials' `Authorization` value.
    /// Fails with `InvalidHeader` exactly when that value holds a byte that
    /// HTTP headers forbid, and with `Request` when the HTTP client cannot be
    /// built.
    pub fn new(config: ClickUpConfig) -> (r: Result<Self, ClickUpError>)
        ensures
            !header_text_valid(config.spec_auth().header_text()) <==> r matches Err(
                ClickUpError::InvalidHeader(_),
            ),
            r matches Ok(c) ==> c.spec_config() == config && c.spec_default_headers()
                == request_headers(config.spec_auth().header_text()),
            r matches Err(e) ==> e is InvalidHeader || e is Request,
    {
        let accept_text = "application/json";
        proof {
            reveal_strlit("application/json");
            lemma_printable_ascii_header(accept_text@);
        }
        let accept = match header_value_from_str(accept_text) {
            Ok(v) => v,
            Err(e) => return Err(ClickUpError::InvalidHeader(e)),
        };
        let header = config.auth().header_value();
        let authorization = match header_value_from_str(header.as_str()) {
            Ok(v) => v,
            Err(e) => return Err(ClickUpError::InvalidHeader(e)),
        };
        match http_client_with_headers(accept, authorization) {
            Ok(http) => Ok(ClickUpClient { http, config }),
            Err(e) => Err(ClickUpError::Request(e)),
        }
    }

    /// Creates a client from the environment: the configuration that
    /// [`ClickUpConfig::from_env_vars`] reads, then [`ClickUpClient::new`].
    pub fn from_env_vars(env: &EnvVars) -> (r: Result<Self, ClickUpError>)
        ensures
            !env_has_auth(*env) ==> (r matches Err(ClickUpError::MissingAuthToken)),
            env_has_auth(*env) ==> {
                let base = normalized_base_url(
                    match env.api_base_url {
                        Some(u) => u@,
                        None => DEFAULT_BASE_URL@,
                    },
                );
                &&& url_parse(base) is None ==> (r matches Err(ClickUpError::InvalidBaseUrl(_)))
                &&& url_parse(base) is Some ==> ((r matches Err(ClickUpError::InvalidHeader(_)))
                    <==> !header_text_valid(env_header_text(*env)))
                &&& r matches Ok(c) ==> url_parse(base) == Some(c.spec_config().spec_base_url())
                    && is_env_auth(c.spec_config().spec_auth(), *env)
                    && c.spec_default_headers() == request_headers(env_header_text(*env))
                &&& r matches Err(e) ==> e is InvalidBaseUrl || e is InvalidHeader || e is Request
            },
    {
        match ClickUpConfig::from_env_vars(env) {
            Ok(config) => {
                proof {
                    lemma_env_header(config.spec_auth(), *env);
                }
                ClickUpClient::new(config)
            },
            Err(e) => Err(e),
        }
    }

    /// Returns a builder for configuring a client step by step.
    pub fn builder() -> (r: ClickUpClientBuilder)
        ensures
            r.spec_auth() is None,
            r.spec_base_url() is None,
    {
        ClickUpClientBuilder::new()
    }

    /// Returns the configuration used by this client.
    pub fn config(&self) -> (r: &ClickUpConfig)
        ensures
            *r == self.spec_config(),
    {
        &self.config
    }

    /// Returns the HTTP client that sends the requests.
    pub fn http(&self) -> (r: &reqwest::Client)
        ensures
            *r == self.spec_http(),
    {
        self.http.client()
    }

    /// The URL of a request: `path` without leading slashes, joined to the
    /// base URL, with the `query` pairs appended in order.
    pub fn build_url(&self, path: &str, query: &[(String, String)]) -> (r: Result<ApiUrl, ClickUpError>)
        ensures
            r is Ok <==> built_url(self.spec_config().spec_base_url(), path@, query_view(query@)) is Some,
            r matches Ok(u) ==> built_url(
                self.spec_config().spec_base_url(),
                path@,
                query_view(query@),
            ) == Some(u@),
            r matches Err(e) ==> e is InvalidBaseUrl,
    {
        let relative = trim_start_char_str(path, '/');
        let mut url = match self.config.base_url().join(relative.as_str()) {
            Ok(u) => u,
            Err(e) => return Err(ClickUpError::InvalidBaseUrl(e)),
        };
        let ghost joined = url@;
        let mut i: usize = 0;
        assert(query_view(query@).take(0) =~= Seq::<(Seq<char>, Seq<char>)>::empty());
        while i < query.len()
            invariant
                i <= query.len(),
                url@ == with_query_pairs(joined, query_view(query@).take(i as int)),
            decreases query.len() - i,
        {
            url.append_pair(query[i].0.as_str(), query[i].1.as_str());
            assert(query_view(query@).take(i + 1).drop_last() =~= query_view(query@).take(i as int));
            i = i + 1;
        }
        assert(query_view(query@).take(query.len() as int) =~= query_view(query@));
        Ok(url)
    }
}

/// A builder for [`ClickUpClient`].
#[derive(Debug, Default)]
pub struct ClickUpClientBuilder {
    auth: Option<ClickUpAuth>,
    base_url: Option<String>,
}

/// The `Authorization` value of the credentials that `env` gives (see
/// [`is_env_auth`]).
pub open spec fn env_header_text(env: EnvVars) -> Seq<char> {
    match env.api_token {
        Some(t) => match strip_prefix(trim(t@), "Bearer "@) {
            Some(rest) => "Bearer "@ + trim(rest),
            None => trim(t@),
        },
        None => match env.access_token {
            Some(t) => "Bearer "@ + trim(t@),
            None => match env.oauth_access_token {
                Some(t) => "Bearer "@ + trim(t@),
                None => Seq::empty(),
            },
        },
    }
}

/// The `Authorization` value that `CLICKUP_API_TOKEN` gives, whatever the
/// other variables hold: the trimmed value itself when it does not start with
/// `Bearer ` (a personal key is sent bare), else `Bearer ` and the rest of the
/// value trimmed.
pub proof fn lemma_env_api_token_header(env: EnvVars, t: String)
    requires
        env.api_token == Some(t),
    ensures
        !starts_with_bearer(trim(t@)) ==> env_header_text(env) == trim(t@),
        starts_with_bearer(trim(t@)) ==> env_header_text(env) == "Bearer "@ + trim(
            trim(t@).skip(7),
        ),
{
    reveal_strlit("Bearer ");
}

proof fn lemma_env_header(a: ClickUpAuth, env: EnvVars)
    requires
        is_env_auth(a, env),
    ensures
        a.header_text() == env_header_text(env),
{
}

impl ClickUpClientBuilder {
    /// The credentials set so far.
    pub closed spec fn spec_auth(self) -> Option<ClickUpAuth> {
        self.auth
    }

    /// The base URL set so far.
    pub closed spec fn spec_base_url(self) -> Option<Seq<char>> {
        match self.base_url {
            Some(u) => Some(u@),
            None => None,
        }
    }

    /// The base URL that [`ClickUpClientBuilder::build`] configures: the one
    /// set, else the default when credentials were set, else
    /// `CLICKUP_API_BASE_URL` or the default.
    pub open spec fn base_url_to_build(self, env: EnvVars) -> Seq<char> {
        match self.spec_base_url() {
            Some(u) => u,
            None => if self.spec_auth() is Some {
                DEFAULT_BASE_URL@
            } else {
                match env.api_base_url {
                    Some(u) => u@,
                    None => DEFAULT_BASE_URL@,
                }
            },
        }
    }

    /// The `Authorization` value that [`ClickUpClientBuilder::build`] uses.
    pub open spec fn header_to_build(self, env: EnvVars) -> Seq<char> {
        match self.spec_auth() {
            Some(a) => a.header_text(),
            None => env_header_text(env),
        }
    }

    fn new() -> (r: Self)
        ensures
            r.spec_auth() is None,
            r.spec_base_url() is None,
    {
        ClickUpClientBuilder { auth: None, base_url: None }
    }

    /// Sets the authentication credentials.
    pub fn auth(self, auth: ClickUpAuth) -> (r: Self)
        ensures
            r.spec_auth() == Some(auth),
            r.spec_base_url() == self.spec_base_url(),
    {
        ClickUpClientBuilder { auth: Some(auth), base_url: self.base_url }
    }

    /// Sets a custom base URL; it is checked at once to be a valid URL.
    pub fn base_url(self, base_url: &str) -> (r: Result<Self, ClickUpError>)
        ensures
            r is Ok <==> url_parse(base_url@) is Some,
            r matches Ok(b) ==> b.spec_base_url() == Some(base_url@) && b.spec_auth()
                == self.spec_auth(),
            r matches Err(e) ==> e is InvalidBaseUrl,
    {
        match ApiUrl::parse(base_url) {
            Ok(_) => Ok(ClickUpClientBuilder { auth: self.auth, base_url: Some(base_url.to_owned()) }),
            Err(e) => Err(ClickUpError::InvalidBaseUrl(e)),
        }
    }

    /// Builds the client. Without credentials set, they are read from `env`
    /// as [`ClickUpAuth::from_env_vars`] does; without credentials or base URL
    /// set, the base URL comes from `env` too.
    pub fn build(self, env: &EnvVars) -> (r: Result<ClickUpClient, ClickUpError>)
        ensures
            self.spec_auth() is None && !env_has_auth(*env) ==> r matches Err(
                ClickUpError::MissingAuthToken,
            ),
            self.spec_auth() is Some || env_has_auth(*env) ==> {
                let base = normalized_base_url(self.base_url_to_build(*env));
                &&& url_parse(base) is None ==> (r matches Err(ClickUpError::InvalidBaseUrl(_)))
                &&& url_parse(base) is Some ==> ((r matches Err(ClickUpError::InvalidHeader(_)))
                    <==> !header_text_valid(self.header_to_build(*env)))
                &&& r matches Ok(c) ==> url_parse(base) == Some(
                    c.spec_config().spec_base_url(),
                ) && match self.spec_auth() {
                    Some(a) => c.spec_config().spec_auth() == a,
                    None => is_env_auth(c.spec_config().spec_auth(), *env),
                } && c.spec_default_headers() == request_headers(
                    self.header_to_build(*env),
                )
                &&& r matches Err(e) ==> e is InvalidBaseUrl || e is InvalidHeader || e is Request
            },
    {
        let config = match (self.auth, self.base_url) {
            (Some(auth), Some(base_url)) => ClickUpConfig::with_base_url(auth, base_url.as_str()),
            (Some(auth), None) => ClickUpConfig::new(auth),
            (None, Some(base_url)) => match ClickUpAuth::from_env_vars(env) {
                Ok(auth) => ClickUpConfig::with_base_url(auth, base_url.as_str()),
                Err(e) => Err(e),
            },
            (None, None) => ClickUpConfig::from_env_vars(env),
        };
        match config {
            Ok(config) => {
                proof {
                    if self.spec_auth() is None {
                        lemma_env_header(config.spec_auth(), *env);
                    }
                }
                ClickUpClient::new(config)
            },
            Err(e) => Err(e),
        }
    }
}

/// `200..=299`: the statuses that `StatusCode::is_success` accepts.
pub open spec fn is_success_status(status: u16) -> bool {
    200 <= status <= 299
}

/// The string member `key` of the JSON value that `text` holds, as
/// `serde_json` reads it: `None` when `text` is not JSON, has no member `key`
/// or that member is not a string.
pub uninterp spec fn json_string_member(text: Seq<char>, key: Seq<char>) -> Option<Seq<char>>;

/// Calls `serde_json::from_str::<serde_json::Value>` on `text`, then
/// `Value::get(key)` and `Value::as_str` on the result. The contract names
/// the result `json_string_member(text, key)`: parsing JSON is a function of
/// the text alone.
#[verifier::external_body]
fn string_member_of_json(text: &str, key: &str) -> (r: Option<String>)
    ensures
        r matches Some(m) ==> json_string_member(text@, key@) == Some(m@),
        r is None ==> json_string_member(text@, key@) is None,
{
    match serde_json::from_str::<serde_json::Value>(text) {
        Ok(value) => value.get(key).and_then(serde_json::Value::as_str).map(str::to_owned),
        Err(_) => None,
    }
}

/// The error message of a failed response, given the `message`, `err` and
/// `error` string members of its JSON body: the first of them that is there,
/// else the trimmed body.
pub open spec fn first_error_message(
    message: Option<Seq<char>>,
    err: Option<Seq<char>>,
    error: Option<Seq<char>>,
    body: Seq<char>,
) -> Seq<char> {
    match message {
        Some(m) => m,
        None => match err {
            Some(m) => m,
            None => match error {
                Some(m) => m,
                None => trim(body),
            },
        },
    }
}

/// The error message of a failed response whose body is `body`.
pub open spec fn error_message_text(body: Seq<char>) -> Seq<char> {
    first_error_message(
        json_string_member(body, "message"@),
        json_string_member(body, "err"@),
        json_string_member(body, "error"@),
        body,
    )
}

/// Picks the error message of a failed response from the string members
/// `message`, `err` and `error` of its JSON body (see [`first_error_message`]).
pub fn pick_error_message(
    message: Option<String>,
    err: Option<String>,
    error: Option<String>,
    body: &str,
) -> (r: String)
    ensures
        r@ == first_error_message(opt_view(message), opt_view(err), opt_view(error), body@),
{
    match message {
        Some(m) => m,
        None => match err {
            Some(m) => m,
            None => match error {
                Some(m) => m,
                None => trim_str(body),
            },
        },
    }
}

/// Extracts the error message of a failed response: the `message`, `err` or
/// `error` string member of its JSON body, else the trimmed body.
pub fn extract_error_message(body: &str) -> (r: String)
    ensures
        r@ == error_message_text(body@),
{
    let message = string_member_of_json(body, "message");
    let err = string_member_of_json(body, "err");
    let error = string_member_of_json(body, "error");
    pick_error_message(message, err, error, body)
}

/// Whether a response status is a success (`StatusCode::is_success`).
pub fn is_success(status: u16) -> (r: bool)
    ensures
        r == is_success_status(status),
        r == (200 <= status && status <= 299),
{
    200 <= status && status <= 299
}

/// Only the 2xx statuses are successes: every status below 200, and every
/// status of 300 or more (redirects, client and server errors alike), is a
/// failure.
pub proof fn lemma_only_2xx_succeed(status: u16)
    ensures
        status < 200 ==> !is_success_status(status),
        status >= 300 ==> !is_success_status(status),
        200 <= status < 300 ==> is_success_status(status),
{
}

/// Checks a response: its body when the status is a success, else an
/// `Http` error with the status and the extracted message.
pub fn check_response(status: u16, body: String) -> (r: Result<String, ClickUpError>)
    ensures
        is_success_status(status) ==> r == Ok::<String, ClickUpError>(body),
        !is_success_status(status) ==> (r matches Err(ClickUpError::Http { status: s, message })
            && s == status && message@ == error_message_text(body@)),
        200 <= status <= 299 ==> r is Ok,
        (status < 200 || status >= 300) ==> (r matches Err(ClickUpError::Http { status: s, .. })
            && s == status),
{
    if is_success(status) {
        Ok(body)
    } else {
        let message = extract_error_message(body.as_str());
        Err(ClickUpError::Http { status, message })
    }
}

} // verus!
