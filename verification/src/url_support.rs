//! The calls into the `url` crate.
use vstd::prelude::*;

verus! {

/// A parsed URL, as far as the library reads it.
#[derive(Debug, Clone)]
pub struct ParsedUrl {
    pub scheme: String,
    pub has_host: bool,
}

/// Whether `url::Url::parse` accepts the text.
pub uninterp spec fn url_parses(s: Seq<char>) -> bool;

/// What `url::Url::scheme` gives for the URL parsed from the text.
pub uninterp spec fn url_scheme_of(s: Seq<char>) -> Seq<char>;

/// What `url::Url::has_host` gives for the URL parsed from the text.
pub uninterp spec fn url_has_host_of(s: Seq<char>) -> bool;

/// The message (`Display`) of the `url::ParseError` for the text.
pub uninterp spec fn url_error_text(s: Seq<char>) -> Seq<char>;

/// Parses an absolute URL with `url::Url::parse` and reads its scheme
/// (`Url::scheme`) and whether it has a host (`Url::has_host`), or the
/// message of the parse error.
///
/// The contract claims only that each of these depends on the text alone;
/// which texts the WHATWG URL parser accepts, and what it reads from them,
/// is left to the names above.
#[verifier::external_body]
pub(crate) fn parse_url(s: &str) -> (r: Result<ParsedUrl, String>)
    ensures
        r is Ok <==> url_parses(s@),
        r matches Ok(p) ==> p.scheme@ == url_scheme_of(s@) && p.has_host == url_has_host_of(s@),
        r matches Err(e) ==> e@ == url_error_text(s@),
{
    match url::Url::parse(s) {
        Ok(u) => Ok(ParsedUrl { scheme: u.scheme().to_string(), has_host: u.has_host() }),
        Err(e) => Err(e.to_string()),
    }
}

} // verus!
