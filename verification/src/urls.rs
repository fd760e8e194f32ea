//! URL validation and normalization, relying on the `url` crate's parser.

use vstd::prelude::*;

verus! {

/// What parsing a string as an absolute URL yields: `None` when the string
/// is not a valid absolute URL, otherwise the parser's normalized
/// serialization of it. The result depends on the characters alone.
pub uninterp spec fn parsed_url(s: Seq<char>) -> Option<Seq<char>>;

/// Relies on `url::Url::parse` (with its default options) and
/// `url::Url::as_str`: parsing is a deterministic function of the input
/// string, and `as_str` returns the parsed URL's normalized serialization.
#[verifier::external_body]
fn parse_normalized(s: &str) -> (r: Option<String>)
    ensures
        (match r {
            Some(u) => parsed_url(s@) == Some(u@),
            None => parsed_url(s@) is None,
        }),
{
    match url::Url::parse(s) {
        Ok(u) => Some(u.as_str().to_owned()),
        Err(_) => None,
    }
}

/// The normalized form of a URL string, or `None` when it does not parse as
/// an absolute URL. Callers ignore assignments for which this is `None`: an
/// unparseable URL is recovered from locally, never forwarded to the engine.
pub fn normalize_url(s: &str) -> (r: Option<String>)
    ensures
        (match r {
            Some(u) => parsed_url(s@) == Some(u@),
            None => parsed_url(s@) is None,
        }),
{
    parse_normalized(s)
}

/// The sentinel favicon URL emitted when a page changes and no favicon for
/// it is known yet, so the previous page's icon is not shown during load.
pub open spec fn empty_favicon() -> Seq<char> {
    "https://localhost/emptyfavicon.ico"@
}

/// The sentinel favicon URL as an owned string.
pub fn empty_favicon_url() -> (r: String)
    ensures
        r@ == empty_favicon(),
{
    String::from_str("https://localhost/emptyfavicon.ico")
}

} // verus!
