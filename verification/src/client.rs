//! The client: a validated base host and the requests of each endpoint.

use crate::error::{Error, ErrorView};
use crate::headers::{ascii, copy_headers, header_entries, lowered, no_headers, set_header};
use crate::locator::{parse_url, parsed, parsed_view, Location};
use crate::query::{pairs, present, Filter, Pair};
use crate::request::{built, fetch, RelatedTagsByIdRequest, RelatedTagsBySlugRequest, Request};
use crate::text::{decimal, escape, escaped, flag, render_decimal, render_flag};
use reqwest::header::HeaderMap;
use vstd::prelude::*;
use vstd::string::{StringExecFns, StringSliceAdditionalSpecFns};
use vstd::utf8::encode_utf8;

verus! {

/// The host of the service in production.
pub const PRODUCTION_HOST: &'static str = "https://gamma-api.polymarket.com";

/// The headers that the transport of every client sends by default.
pub open spec fn default_headers() -> Map<Seq<char>, Seq<Seq<u8>>> {
    Map::empty().insert("user-agent"@, seq![ascii("rs_clob_client"@)]).insert(
        "accept"@,
        seq![ascii("*/*"@)],
    ).insert("connection"@, seq![ascii("keep-alive"@)]).insert(
        "content-type"@,
        seq![ascii("application/json"@)],
    )
}

/// A client bound to one base host. Immutable once constructed.
#[derive(Debug)]
pub struct Client {
    host: String,
    headers: HeaderMap,
}

/// The mathematical content of a [`Client`].
pub struct ClientView {
    /// The base host, as the URL parser wrote it back.
    pub host: Seq<char>,
    /// The default headers of the transport.
    pub headers: Map<Seq<char>, Seq<Seq<u8>>>,
}

impl View for Client {
    type V = ClientView;

    closed spec fn view(&self) -> ClientView {
        ClientView { host: self.host@, headers: header_entries(self.headers) }
    }
}

impl Clone for Client {
    fn clone(&self) -> (r: Client)
        ensures
            r@ == self@,
    {
        proof {
            use_type_invariant(self);
        }
        Client { host: self.host.clone(), headers: copy_headers(&self.headers) }
    }
}

/// The content of the result of constructing a client.
pub open spec fn constructed(result: Result<Client, Error>) -> Result<ClientView, ErrorView> {
    match result {
        Ok(client) => Ok(client@),
        Err(error) => Err(error@),
    }
}

/// The client for a host that parsed as `parsed`: bound to the URL as the
/// parser wrote it back, with the default headers; a configuration error
/// where the host was refused.
pub open spec fn bound(parsed: Result<(Seq<char>, Seq<char>), Seq<char>>) -> Result<
    ClientView,
    ErrorView,
> {
    match parsed {
        Ok((url, _)) => Ok(ClientView { host: url, headers: default_headers() }),
        Err(cause) => Err(ErrorView::Configuration { cause }),
    }
}

impl Client {
    /// Every client carries the same default headers.
    #[verifier::type_invariant]
    spec fn configured(&self) -> bool {
        header_entries(self.headers) == default_headers()
    }

    /// Binds a client to `host`. It succeeds exactly where `host` is an
    /// absolute URL; no connection is made.
    pub fn new(host: &str) -> (r: Result<Client, Error>)
        ensures
            constructed(r) == bound(parsed(host@)),
    {
        Self::bind(parse_url(host))
    }

    /// Binds a client to the host of the service in production.
    pub fn production() -> (r: Result<Client, Error>)
        ensures
            constructed(r) == bound(parsed(PRODUCTION_HOST@)),
    {
        Self::new(PRODUCTION_HOST)
    }

    /// Binds a client to a host that has been parsed already: `parsed` holds
    /// its URL, or the message with which it was refused.
    pub fn bind(parsed: Result<Location, String>) -> (r: Result<Client, Error>)
        ensures
            constructed(r) == bound(parsed_view(parsed)),
    {
        match parsed {
            Ok(location) => Ok(Client { host: location.text, headers: Self::transport_headers() }),
            Err(cause) => Err(Error::Configuration { cause }),
        }
    }

    /// The base host in normalized form.
    #[must_use]
    pub fn host(&self) -> (r: &str)
        ensures
            r@ == self@.host,
    {
        self.host.as_str()
    }

    /// The header map with which the transport of a client is configured.
    fn transport_headers() -> (r: HeaderMap)
        ensures
            header_entries(r) == default_headers(),
    {
        proof {
            reveal_strlit("User-Agent");
            reveal_strlit("user-agent");
            reveal_strlit("rs_clob_client");
            reveal_strlit("Accept");
            reveal_strlit("accept");
            reveal_strlit("*/*");
            reveal_strlit("Connection");
            reveal_strlit("connection");
            reveal_strlit("keep-alive");
            reveal_strlit("Content-Type");
            reveal_strlit("content-type");
            reveal_strlit("application/json");
            assert(lowered("User-Agent"@) =~= "user-agent"@);
            assert(lowered("Accept"@) =~= "accept"@);
            assert(lowered("Connection"@) =~= "connection"@);
            assert(lowered("Content-Type"@) =~= "content-type"@);
        }
        let mut headers = no_headers();
        set_header(&mut headers, "User-Agent", "rs_clob_client");
        set_header(&mut headers, "Accept", "*/*");
        set_header(&mut headers, "Connection", "keep-alive");
        set_header(&mut headers, "Content-Type", "application/json");
        headers
    }

    /// The default headers with which the transport is to be configured.
    #[must_use]
    pub fn headers(&self) -> (r: &HeaderMap)
        ensures
            header_entries(*r) == self@.headers,
            self@.headers == default_headers(),
    {
        proof {
            use_type_invariant(self);
        }
        &self.headers
    }

    /// The query of the endpoints that take an optional `include_template`
    /// flag: one parameter where the flag is given, none where it is not.
    pub open spec fn template_query(include_template: Option<bool>) -> Seq<
        (Seq<char>, Seq<char>),
    > {
        match include_template {
            Some(wanted) => seq![("include_template"@, flag(wanted))],
            None => Seq::empty(),
        }
    }

    fn include_template(include_template: Option<bool>) -> (r: Vec<Pair>)
        ensures
            pairs(r@) == Self::template_query(include_template),
    {
        let mut query: Vec<Pair> = Vec::new();
        if let Some(wanted) = include_template {
            query.push(
                Pair { name: String::from_str("include_template"), value: render_flag(wanted) },
            );
        }
        assert(pairs(query@) =~= Self::template_query(include_template));
        query
    }

    /// The base host followed by `resource`.
    fn resource(&self, resource: &str) -> (r: String)
        ensures
            r@ == self@.host + resource@,
    {
        let mut target = self.host.clone();
        target.append(resource);
        target
    }

    /// The base host followed by `resource` and the decimal form of `id`.
    fn resource_by_id(&self, resource: &str, id: u32) -> (r: String)
        ensures
            r@ == self@.host + resource@ + decimal(id as nat),
    {
        let mut target = self.resource(resource);
        target.append(render_decimal(id).as_str());
        target
    }

    /// The base host followed by the resource of the tags by slug and by
    /// `slug`, escaped.
    fn resource_by_slug(&self, slug: &str) -> (r: String)
        ensures
            r@ == self@.host + "tags/slug/"@ + escaped(slug.spec_bytes()),
    {
        let mut target = self.resource("tags/slug/");
        target.append(escape(slug).as_str());
        target
    }

    /// The request that lists the teams that `request` selects.
    pub fn teams(&self, request: &Filter) -> (r: Result<Request, Error>)
        ensures
            built(r) == fetch(self@.host + "teams"@, present(request@)),
    {
        let target = self.resource("teams");
        Request::get(target.as_str(), request.query())
    }

    /// The request for the metadata of the sports.
    pub fn sports(&self) -> (r: Result<Request, Error>)
        ensures
            built(r) == fetch(self@.host + "sports"@, Seq::empty()),
    {
        let target = self.resource("sports");
        let query: Vec<Pair> = Vec::new();
        assert(pairs(query@) =~= Seq::empty());
        Request::get(target.as_str(), query)
    }

    /// The request for the market types of the sports.
    pub fn sports_market_types(&self) -> (r: Result<Request, Error>)
        ensures
            built(r) == fetch(self@.host + "sports/market-types"@, Seq::empty()),
    {
        let target = self.resource("sports/market-types");
        let query: Vec<Pair> = Vec::new();
        assert(pairs(query@) =~= Seq::empty());
        Request::get(target.as_str(), query)
    }

    /// The request that lists the tags that `request` selects.
    pub fn tags(&self, request: &Filter) -> (r: Result<Request, Error>)
        ensures
            built(r) == fetch(self@.host + "tags"@, present(request@)),
    {
        let target = self.resource("tags");
        Request::get(target.as_str(), request.query())
    }

    /// The request for the tag with the id `id`.
    pub fn tag_by_id(&self, id: u32, include_template: Option<bool>) -> (r: Result<Request, Error>)
        ensures
            built(r) == fetch(
                self@.host + "tags/"@ + decimal(id as nat),
                Self::template_query(include_template),
            ),
    {
        let target = self.resource_by_id("tags/", id);
        Request::get(target.as_str(), Self::include_template(include_template))
    }

    /// The request for the tag with the slug `slug`. The slug is escaped
    /// before it is written into the path: no character of it separates
    /// segments or starts a query or a fragment. A slug of unreserved
    /// characters is written as it is; one that is `.` or `..` is, being
    /// unreserved, a relative segment that the URL parser resolves.
    pub fn tag_by_slug(&self, slug: &str, include_template: Option<bool>) -> (r: Result<
        Request,
        Error,
    >)
        ensures
            built(r) == fetch(
                self@.host + "tags/slug/"@ + escaped(slug.spec_bytes()),
                Self::template_query(include_template),
            ),
    {
        let target = self.resource_by_slug(slug);
        Request::get(target.as_str(), Self::include_template(include_template))
    }

    /// The request that lists the relationships of the tag with one id.
    pub fn tag_relationships_by_id(&self, request: &RelatedTagsByIdRequest) -> (r: Result<
        Request,
        Error,
    >)
        ensures
            built(r) == fetch(
                self@.host + "tags/"@ + decimal(request.id as nat) + "/related-tags"@,
                present(request.filter@),
            ),
    {
        let mut target = self.resource_by_id("tags/", request.id);
        target.append("/related-tags");
        Request::get(target.as_str(), request.filter.query())
    }

    /// The request that lists the relationships of the tag with one slug,
    /// which is escaped as [`Client::tag_by_slug`] escapes it.
    pub fn tag_relationships_by_slug(&self, request: &RelatedTagsBySlugRequest) -> (r: Result<
        Request,
        Error,
    >)
        ensures
            built(r) == fetch(
                self@.host + "tags/slug/"@ + escaped(encode_utf8(request.slug@))
                    + "/related-tags"@,
                present(request.filter@),
            ),
    {
        let mut target = self.resource_by_slug(request.slug.as_str());
        target.append("/related-tags");
        Request::get(target.as_str(), request.filter.query())
    }

    /// The request that lists the tags related to the tag with one id.
    pub fn related_tags_by_id(&self, request: &RelatedTagsByIdRequest) -> (r: Result<
        Request,
        Error,
    >)
        ensures
            built(r) == fetch(
                self@.host + "tags/"@ + decimal(request.id as nat) + "/related-tags/tags"@,
                present(request.filter@),
            ),
    {
        let mut target = self.resource_by_id("tags/", request.id);
        target.append("/related-tags/tags");
        Request::get(target.as_str(), request.filter.query())
    }

    /// The request that lists the tags related to the tag with one slug,
    /// which is escaped as [`Client::tag_by_slug`] escapes it.
    pub fn related_tags_by_slug(&self, request: &RelatedTagsBySlugRequest) -> (r: Result<
        Request,
        Error,
    >)
        ensures
            built(r) == fetch(
                self@.host + "tags/slug/"@ + escaped(encode_utf8(request.slug@))
                    + "/related-tags/tags"@,
                present(request.filter@),
            ),
    {
        let mut target = self.resource_by_slug(request.slug.as_str());
        target.append("/related-tags/tags");
        Request::get(target.as_str(), request.filter.query())
    }
}

} // verus!
