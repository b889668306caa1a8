//! Types and calls of the outside crates that the library holds or makes.
use vstd::prelude::*;

verus! {

/// `url::Url`: a parsed absolute URL, carried through the library unopened.
#[verifier::external_type_specification]
#[verifier::external_body]
pub struct ExUrl(url::Url);

/// `url::ParseError`: why a string is not an absolute URL.
#[verifier::external_type_specification]
#[verifier::external_body]
pub struct ExUrlParseError(url::ParseError);

/// `kube::Error`: an error of the Kubernetes client, carried unopened.
#[verifier::external_type_specification]
#[verifier::external_body]
pub struct ExKubeError(kube::Error);

/// `Clone::clone` of `url::Url`, which `url` derives: the copy is the same URL.
pub assume_specification[ <url::Url as Clone>::clone ](u: &url::Url) -> (r: url::Url)
    ensures
        r == *u,
;

/// What `url::Url::parse` gives for a text: the URL it parses, or why it is not one
/// (the WHATWG URL parsing algorithm, which takes pages to state). It depends on the
/// text alone.
pub uninterp spec fn url_parse(input: Seq<char>) -> Result<url::Url, url::ParseError>;

/// Whether `url::Url::parse` accepts the text as an absolute URL.
pub open spec fn url_parses(input: Seq<char>) -> bool {
    url_parse(input) is Ok
}

/// The URL that `url::Url::parse` gives for a text it accepts.
pub open spec fn parsed_url(input: Seq<char>) -> url::Url {
    url_parse(input)->Ok_0
}

/// Calls `url::Url::parse`. Claimed: the call's outcome, the parsed URL or the error, is
/// a function of the text alone, named `url_parse`.
#[verifier::external_body]
pub(crate) fn parse_url(input: &str) -> (r: Result<url::Url, url::ParseError>)
    ensures
        r == url_parse(input@),
{
    url::Url::parse(input)
}

} // verus!
