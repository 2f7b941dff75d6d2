//! A typed client core for the Gamma metadata service.
//!
//! The crate holds every decision of one request/response cycle: validating the
//! base host, building the request for each endpoint, and turning what the
//! transport reports into a typed value or a typed [`Error`]. It performs no
//! I/O itself: the caller sends the [`Request`] and reports back what happened.
//!
//! A call runs in three steps. A [`Client`] builds the [`Request`] of an
//! endpoint, such as [`Client::tag_by_id`]. The caller sends it with the
//! headers of [`Client::headers`] as defaults. [`Call`] then takes the status
//! of the response and says how the body is to be read, and the reading ends
//! the call with a value or an [`Error`]. [`Client::execute`] does the same
//! for an [`Exchange`] that is known as a whole.

pub mod call;
pub mod client;
pub mod error;
pub mod headers;
pub mod laws;
pub mod locator;
pub mod query;
pub mod request;
pub mod text;

pub use call::{Accepted, Call, Exchange, ExchangeView, Progress, Rejected};
pub use client::{Client, ClientView, PRODUCTION_HOST};
pub use error::{Error, ErrorView, Method};
pub use locator::Location;
pub use query::{Field, Filter, Pair};
pub use request::{RelatedTagsByIdRequest, RelatedTagsBySlugRequest, Request, RequestView};
