//! HTTP header values and the HTTP client, each together with the texts it
//! was made from. Their fields are private to this module: only the calls
//! into `reqwest` below make them, so the texts are those of the values that
//! `reqwest` holds.

use vstd::prelude::*;
use vstd::utf8::encode_utf8;

use crate::client::query_view;

verus! {

/// `reqwest::header::HeaderValue`: a validated HTTP header value.
#[verifier::external_type_specification]
#[verifier::external_body]
pub struct ExHeaderValue(reqwest::header::HeaderValue);

/// `reqwest::Client`: an HTTP client with its connection pool.
#[verifier::external_type_specification]
#[verifier::external_body]
pub struct ExClient(reqwest::Client);

/// `Clone::clone` of `reqwest::Client`, which shares the client's connection
/// pool. Nothing is claimed of the copy.
pub assume_specification[ <reqwest::Client as Clone>::clone ](c: &reqwest::Client) -> reqwest::Client;

/// A byte that may occur in an HTTP header value: 32 to 255 except 127
/// (DEL), or a tab.
pub open spec fn header_byte_ok(b: u8) -> bool {
    (b >= 32 && b != 127) || b == 9
}

/// Every byte of `bytes` may occur in an HTTP header value.
pub open spec fn header_bytes_valid(bytes: Seq<u8>) -> bool {
    forall|i: int| 0 <= i < bytes.len() ==> header_byte_ok(#[trigger] bytes[i])
}

/// The UTF-8 encoding of `text` is a valid HTTP header value.
pub open spec fn header_text_valid(text: Seq<char>) -> bool {
    header_bytes_valid(encode_utf8(text))
}

/// A header value checked by `reqwest`, together with its text.
#[derive(Debug)]
pub struct HeaderText {
    value: reqwest::header::HeaderValue,
    text: String,
}

impl View for HeaderText {
    type V = Seq<char>;

    closed spec fn view(&self) -> Seq<char> {
        self.text@
    }
}

/// Calls `reqwest::header::HeaderValue::from_str`. The contract claims what
/// its source shows (`try_from_generic` with `is_valid`, then
/// `Bytes::copy_from_slice`): it succeeds exactly when every byte of `s` is 32
/// to 255 except 127, or a tab, and the value it makes holds the bytes of `s`,
/// so its text is `s`.
#[verifier::external_body]
pub(crate) fn header_value_from_str(s: &str) -> (r: Result<HeaderText, reqwest::header::InvalidHeaderValue>)
    ensures
        r is Ok <==> header_bytes_valid(encode_utf8(s@)),
        r matches Ok(h) ==> h@ == s@,
{
    match reqwest::header::HeaderValue::from_str(s) {
        Ok(value) => Ok(HeaderText { value, text: s.to_owned() }),
        Err(e) => Err(e),
    }
}

/// The default headers of a client for the ClickUp API, as `(name, value)`
/// texts: `Accept: application/json` and `Authorization: authorization`.
pub open spec fn request_headers(authorization: Seq<char>) -> Seq<(Seq<char>, Seq<char>)> {
    seq![("accept"@, "application/json"@), ("authorization"@, authorization)]
}

/// An HTTP client together with the default headers it was built with: the
/// headers it adds to every request that does not set them itself.
#[derive(Clone, Debug)]
pub struct HttpClient {
    client: reqwest::Client,
    default_headers: Vec<(String, String)>,
}

impl HttpClient {
    /// The `reqwest` client that sends the requests.
    pub closed spec fn spec_client(self) -> reqwest::Client {
        self.client
    }

    /// Returns the `reqwest` client that sends the requests.
    pub fn client(&self) -> (r: &reqwest::Client)
        ensures
            *r == self.spec_client(),
    {
        &self.client
    }
}

impl View for HttpClient {
    type V = Seq<(Seq<char>, Seq<char>)>;

    closed spec fn view(&self) -> Seq<(Seq<char>, Seq<char>)> {
        query_view(self.default_headers@)
    }
}

/// Calls `reqwest::Client::builder()`, `default_headers` with a header map that
/// holds `accept` under `ACCEPT` and `authorization` under `AUTHORIZATION`, and
/// `build()`. The contract claims what the source shows: `default_headers`
/// inserts each of them into the builder's headers, replacing the builder's
/// own `Accept: */*`, so the client's default headers are exactly these two.
/// Whether building succeeds is not claimed: it fails when the TLS backend or
/// the system resolver configuration cannot be loaded, which depends on the
/// machine.
#[verifier::external_body]
pub(crate) fn http_client_with_headers(accept: HeaderText, authorization: HeaderText) -> (r: Result<
    HttpClient,
    reqwest::Error,
>)
    ensures
        r matches Ok(c) ==> c@ == seq![("accept"@, accept@), ("authorization"@, authorization@)],
{
    let mut headers = reqwest::header::HeaderMap::new();
    headers.insert(reqwest::header::ACCEPT, accept.value);
    headers.insert(reqwest::header::AUTHORIZATION, authorization.value);
    match reqwest::Client::builder().default_headers(headers).build() {
        Ok(client) => Ok(HttpClient {
            client,
            default_headers: vec![
                ("accept".to_owned(), accept.text),
                ("authorization".to_owned(), authorization.text),
            ],
        }),
        Err(e) => Err(e),
    }
}

} // verus!
