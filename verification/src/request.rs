//! Request descriptors: what is to be sent, before it is sent.

use crate::error::{Error, ErrorView, Method};
use crate::headers::{copy_headers, header_entries, no_headers};
use crate::locator::{parse_url, parsed, parsed_view, Location};
use crate::query::{copy_pairs, pairs, Filter, Pair};
use reqwest::header::HeaderMap;
use vstd::prelude::*;

verus! {

/// A request that has not been sent yet.
#[derive(Debug, PartialEq, Eq)]
pub struct Request {
    pub method: Method,
    /// The absolute URL of the resource, as the URL parser wrote it back.
    /// The query parameters are no part of it.
    pub url: String,
    /// The path component of `url`.
    pub path: String,
    /// The query parameters, in the order in which they are sent.
    pub query: Vec<Pair>,
    /// The headers of this request alone, beside the transport's defaults.
    pub headers: HeaderMap,
}

/// The mathematical content of a [`Request`].
pub struct RequestView {
    pub method: Method,
    pub url: Seq<char>,
    pub path: Seq<char>,
    pub query: Seq<(Seq<char>, Seq<char>)>,
    pub headers: Map<Seq<char>, Seq<Seq<u8>>>,
}

impl Clone for Request {
    fn clone(&self) -> (r: Request)
        ensures
            r@ == self@,
    {
        Request {
            method: self.method,
            url: self.url.clone(),
            path: self.path.clone(),
            query: copy_pairs(&self.query),
            headers: copy_headers(&self.headers),
        }
    }
}

impl View for Request {
    type V = RequestView;

    open spec fn view(&self) -> RequestView {
        RequestView {
            method: self.method,
            url: self.url@,
            path: self.path@,
            query: pairs(self.query@),
            headers: header_entries(self.headers),
        }
    }
}

/// The request that is sent for `request` under an optional header override:
/// the override replaces the request's headers whole, it is not merged.
pub open spec fn overridden(
    request: RequestView,
    headers: Option<Map<Seq<char>, Seq<Seq<u8>>>>,
) -> RequestView {
    match headers {
        Some(replacement) => RequestView { headers: replacement, ..request },
        None => request,
    }
}

/// The content of an optional header override.
pub open spec fn override_view(headers: Option<HeaderMap>) -> Option<Map<Seq<char>, Seq<Seq<u8>>>> {
    match headers {
        Some(map) => Some(header_entries(map)),
        None => None,
    }
}

/// The `GET` request for a target that parsed as `parsed`, with `query`; the
/// error where the target was refused with a message.
pub open spec fn fetch_parsed(
    parsed: Result<(Seq<char>, Seq<char>), Seq<char>>,
    query: Seq<(Seq<char>, Seq<char>)>,
) -> Result<RequestView, ErrorView> {
    match parsed {
        Ok((url, path)) => Ok(
            RequestView { method: Method::Get, url, path, query, headers: Map::empty() },
        ),
        Err(cause) => Err(ErrorView::Transport { cause }),
    }
}

/// The request that fetches `target` with `query`, or the error where
/// `target` is no URL.
pub open spec fn fetch(target: Seq<char>, query: Seq<(Seq<char>, Seq<char>)>) -> Result<
    RequestView,
    ErrorView,
> {
    fetch_parsed(parsed(target), query)
}

/// The content of the result of building a request.
pub open spec fn built(result: Result<Request, Error>) -> Result<RequestView, ErrorView> {
    match result {
        Ok(request) => Ok(request@),
        Err(error) => Err(error@),
    }
}

impl Request {
    /// This request under an optional header override: where `headers` is
    /// given it takes the place of the request's own headers, none of which
    /// is kept.
    pub fn with_headers(self, headers: Option<HeaderMap>) -> (r: Request)
        ensures
            r@ == overridden(self@, override_view(headers)),
    {
        match headers {
            Some(replacement) => Request {
                method: self.method,
                url: self.url,
                path: self.path,
                query: self.query,
                headers: replacement,
            },
            None => self,
        }
    }

    /// A `GET` request for the URL written in `target`, with `query` as its
    /// query parameters and no headers of its own.
    pub fn get(target: &str, query: Vec<Pair>) -> (r: Result<Request, Error>)
        ensures
            built(r) == fetch(target@, pairs(query@)),
    {
        Self::get_parsed(parse_url(target), query)
    }

    /// A `GET` request for a target that has been parsed already: `parsed`
    /// holds its URL and path, or the message with which it was refused.
    pub fn get_parsed(parsed: Result<Location, String>, query: Vec<Pair>) -> (r: Result<
        Request,
        Error,
    >)
        ensures
            built(r) == fetch_parsed(parsed_view(parsed), pairs(query@)),
    {
        match parsed {
            Ok(location) => Ok(
                Request {
                    method: Method::Get,
                    url: location.text,
                    path: location.path,
                    query,
                    headers: no_headers(),
                },
            ),
            Err(cause) => Err(Error::Transport { cause }),
        }
    }
}

/// The filter for the tags related to the tag with one id.
#[derive(Clone, Debug, PartialEq, Eq)]
pub struct RelatedTagsByIdRequest {
    pub id: u32,
    pub filter: Filter,
}

/// The filter for the tags related to the tag with one slug.
#[derive(Clone, Debug, PartialEq, Eq)]
pub struct RelatedTagsBySlugRequest {
    pub slug: String,
    pub filter: Filter,
}

} // verus!
