//! URL parsing, delegated to the `url` crate.

use url::Url;
use vstd::prelude::*;

verus! {

/// What `url::Url::parse` makes of `text`: the serialization of the URL it
/// reads, or the message of the error with which it refuses the text.
pub uninterp spec fn url_parse(text: Seq<char>) -> Result<Seq<char>, Seq<char>>;

/// The path (`url::Url::path`) of the URL that `url::Url::parse` reads from
/// `text`. It carries no meaning where the text is refused.
pub uninterp spec fn url_path(text: Seq<char>) -> Seq<char>;

/// An absolute URL as the parser writes it back, with its path component.
#[derive(Clone, Debug, PartialEq, Eq)]
pub struct Location {
    /// The whole URL.
    pub text: String,
    /// The path component of the URL.
    pub path: String,
}

/// Parses `text` with `url::Url::parse`.
///
/// Trusted: on success the result holds the URL's serialization
/// (`String::from(url)`) and its path (`url::Url::path`); on failure it holds
/// the parse error's display text. Both are taken to depend on `text` alone.
#[verifier::external_body]
pub(crate) fn parse_url(text: &str) -> (r: Result<Location, String>)
    ensures
        match r {
            Ok(location) => url_parse(text@) == Ok::<Seq<char>, Seq<char>>(location.text@)
                && url_path(text@) == location.path@,
            Err(message) => url_parse(text@) == Err::<Seq<char>, Seq<char>>(message@),
        },
{
    match Url::parse(text) {
        Ok(url) => Ok(Location { path: url.path().to_owned(), text: url.into() }),
        Err(error) => Err(error.to_string()),
    }
}

/// What the URL parser makes of `target`: the URL and its path, or the
/// message of the refusal.
pub open spec fn parsed(target: Seq<char>) -> Result<(Seq<char>, Seq<char>), Seq<char>> {
    match url_parse(target) {
        Ok(url) => Ok((url, url_path(target))),
        Err(cause) => Err(cause),
    }
}

/// The content of a parsing result.
pub open spec fn parsed_view(parsed: Result<Location, String>) -> Result<
    (Seq<char>, Seq<char>),
    Seq<char>,
> {
    match parsed {
        Ok(location) => Ok((location.text@, location.path@)),
        Err(cause) => Err(cause@),
    }
}

} // verus!
