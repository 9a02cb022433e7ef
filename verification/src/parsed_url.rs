//! URLs, parsed and normalized by the `url` crate.
use vstd::prelude::*;

verus! {

#[verifier::external_type_specification]
#[verifier::external_body]
pub struct ExUrl(url::Url);

#[verifier::external_type_specification]
#[verifier::external_body]
pub struct ExUrlParseError(url::ParseError);

/// The serialization of the URL that `url::Url::parse` reads from `input`, or `None` where it
/// fails.
pub uninterp spec fn url_parse(input: Seq<char>) -> Option<Seq<char>>;

/// A parsed URL, with its serialization.
#[derive(Debug)]
pub struct ParsedUrl {
    inner: url::Url,
    serialization: String,
}

impl View for ParsedUrl {
    type V = Seq<char>;

    /// The URL's serialization.
    closed spec fn view(&self) -> Seq<char> {
        self.serialization@
    }
}

impl ParsedUrl {
    /// The URL as the `url` crate holds it, which `parse` read the serialization from.
    pub closed spec fn url_of(self) -> url::Url {
        self.inner
    }

    /// Parses `input` as an absolute URL.
    pub fn parse(input: &str) -> (r: Result<ParsedUrl, url::ParseError>)
        ensures
            r is Ok <==> url_parse(input@) is Some,
            r matches Ok(u) ==> u@ == url_parse(input@)->0,
    {
        url_crate_parse(input)
    }

    /// The URL's serialization.
    pub fn as_str(&self) -> (r: &str)
        ensures
            r@ == self@,
    {
        self.serialization.as_str()
    }

    /// The URL as the `url` crate holds it.
    pub fn as_url(&self) -> (r: &url::Url)
        ensures
            *r == self.url_of(),
    {
        &self.inner
    }
}

/// Calls `url::Url::parse` and, on success, `url::Url::as_str`; the contract claims that it
/// succeeds exactly where `url_parse` names a serialization, and that the serialization is the
/// one named.
#[verifier::external_body]
fn url_crate_parse(input: &str) -> (r: Result<ParsedUrl, url::ParseError>)
    ensures
        r is Ok <==> url_parse(input@) is Some,
        r matches Ok(u) ==> u@ == url_parse(input@)->0,
{
    match url::Url::parse(input) {
        Ok(inner) => {
            let serialization = String::from(inner.as_str());
            Ok(ParsedUrl { inner, serialization })
        },
        Err(e) => Err(e),
    }
}

} // verus!
