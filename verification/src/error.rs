//! The error surface of the client.

use vstd::prelude::*;

verus! {

/// An HTTP request method.
#[derive(Clone, Copy, Debug, PartialEq, Eq, Structural)]
pub enum Method {
    Get,
    Head,
    Post,
    Put,
    Delete,
    Connect,
    Options,
    Trace,
    Patch,
}

impl Method {
    /// The token of the method, as it stands in a request line.
    pub open spec fn token(self) -> Seq<char> {
        match self {
            Method::Get => "GET"@,
            Method::Head => "HEAD"@,
            Method::Post => "POST"@,
            Method::Put => "PUT"@,
            Method::Delete => "DELETE"@,
            Method::Connect => "CONNECT"@,
            Method::Options => "OPTIONS"@,
            Method::Trace => "TRACE"@,
            Method::Patch => "PATCH"@,
        }
    }

    /// The token of the method, as it stands in a request line.
    pub fn as_str(self) -> (r: &'static str)
        ensures
            r@ == self.token(),
    {
        match self {
            Method::Get => "GET",
            Method::Head => "HEAD",
            Method::Post => "POST",
            Method::Put => "PUT",
            Method::Delete => "DELETE",
            Method::Connect => "CONNECT",
            Method::Options => "OPTIONS",
            Method::Trace => "TRACE",
            Method::Patch => "PATCH",
        }
    }
}

/// Why a call failed. Every failure of a call is exactly one of these.
#[derive(Clone, Debug, PartialEq, Eq)]
pub enum Error {
    /// The base host is not an absolute URL.
    Configuration { cause: String },
    /// The request could not be built or no response arrived.
    Transport { cause: String },
    /// The server answered outside 2xx, or answered 2xx with nothing.
    Status { code: u16, method: Method, path: String, message: String },
    /// The body of a 2xx answer is not the expected type.
    Decode { cause: String, method: Method, path: String },
}

/// The mathematical content of an [`Error`].
pub enum ErrorView {
    Configuration { cause: Seq<char> },
    Transport { cause: Seq<char> },
    Status { code: u16, method: Method, path: Seq<char>, message: Seq<char> },
    Decode { cause: Seq<char>, method: Method, path: Seq<char> },
}

impl View for Error {
    type V = ErrorView;

    open spec fn view(&self) -> ErrorView {
        match *self {
            Error::Configuration { cause } => ErrorView::Configuration { cause: cause@ },
            Error::Transport { cause } => ErrorView::Transport { cause: cause@ },
            Error::Status { code, method, path, message } => ErrorView::Status {
                code,
                method,
                path: path@,
                message: message@,
            },
            Error::Decode { cause, method, path } => ErrorView::Decode {
                cause: cause@,
                method,
                path: path@,
            },
        }
    }
}

} // verus!
