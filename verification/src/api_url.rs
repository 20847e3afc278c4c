//! Absolute URLs, parsed and manipulated by the `url` crate.
//!
//! An [`ApiUrl`] is a `url::Url` together with its serialization; the
//! serialization is its view. Two `url::Url` values are equal exactly when
//! their serializations are (`impl PartialEq for Url`), so what the `url`
//! crate computes from a URL is a function of its serialization.

use vstd::prelude::*;

verus! {

/// `url::Url`: a parsed absolute URL.
#[verifier::external_type_specification]
#[verifier::external_body]
pub struct ExUrl(url::Url);

/// The serialization of `Url::parse(input)` when it succeeds.
pub uninterp spec fn url_parse(input: Seq<char>) -> Option<Seq<char>>;

/// The serialization of `base.join(input)` (`Url::join`) when it succeeds,
/// where `base` is the URL whose serialization is `base`.
pub uninterp spec fn url_join(base: Seq<char>, input: Seq<char>) -> Option<Seq<char>>;

/// The serialization of the URL `url` after
/// `url.query_pairs_mut().append_pair(name, value)`.
pub uninterp spec fn url_append_pair(url: Seq<char>, name: Seq<char>, value: Seq<char>) -> Seq<char>;

/// Calls `Clone::clone` of `url::Url` (derived there). Nothing is claimed of
/// the copy, which is opaque here.
#[verifier::external_body]
fn clone_url(u: &url::Url) -> url::Url {
    u.clone()
}

/// An absolute URL and its serialization.
#[derive(Debug)]
pub struct ApiUrl {
    url: url::Url,
    text: String,
}

impl View for ApiUrl {
    type V = Seq<char>;

    closed spec fn view(&self) -> Seq<char> {
        self.text@
    }
}

impl Clone for ApiUrl {
    /// A copy of this URL, with the same serialization.
    fn clone(&self) -> (r: Self)
        ensures
            r@ == self@,
    {
        ApiUrl { url: clone_url(&self.url), text: self.text.clone() }
    }
}

impl ApiUrl {
    /// Calls `url::Url::parse`. The contract claims that the call succeeds
    /// exactly when `url_parse(input)` is defined, and that the serialization
    /// of the parsed URL is `url_parse(input)`.
    #[verifier::external_body]
    pub(crate) fn parse(input: &str) -> (r: Result<ApiUrl, url::ParseError>)
        ensures
            r matches Ok(u) ==> url_parse(input@) == Some(u@),
            r is Err ==> url_parse(input@) is None,
    {
        match url::Url::parse(input) {
            Ok(url) => Ok(ApiUrl { text: url.as_str().to_owned(), url }),
            Err(e) => Err(e),
        }
    }

    /// Calls `url::Url::join`. The contract claims that the call succeeds
    /// exactly when `url_join(self, input)` is defined, and that the
    /// serialization of the joined URL is `url_join(self, input)`.
    #[verifier::external_body]
    pub(crate) fn join(&self, input: &str) -> (r: Result<ApiUrl, url::ParseError>)
        ensures
            r matches Ok(u) ==> url_join(self@, input@) == Some(u@),
            r is Err ==> url_join(self@, input@) is None,
    {
        match self.url.join(input) {
            Ok(url) => Ok(ApiUrl { text: url.as_str().to_owned(), url }),
            Err(e) => Err(e),
        }
    }

    /// Calls `url::Url::query_pairs_mut` and `append_pair` on the serializer
    /// it returns (which writes the pair back when it is dropped). The
    /// contract claims that the new serialization is
    /// `url_append_pair(old, name, value)`.
    #[verifier::external_body]
    pub(crate) fn append_pair(&mut self, name: &str, value: &str)
        ensures
            final(self)@ == url_append_pair(old(self)@, name@, value@),
    {
        self.url.query_pairs_mut().append_pair(name, value);
        self.text = self.url.as_str().to_owned();
    }

    /// The serialization of this URL (`Url::as_str`).
    pub fn as_str(&self) -> (r: &str)
        ensures
            r@ == self@,
    {
        self.text.as_str()
    }

    /// The parsed URL that this value holds, the one whose serialization is
    /// its view.
    pub closed spec fn parsed(self) -> url::Url {
        self.url
    }

    /// The parsed URL.
    pub fn url(&self) -> (r: &url::Url)
        ensures
            *r == self.parsed(),
    {
        &self.url
    }
}

} // verus!
