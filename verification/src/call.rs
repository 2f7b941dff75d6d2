//! One request/response cycle, decision by decision.
//!
//! The caller performs the I/O and reports each result; the types here decide
//! what to read next and what the call returns. A call goes through
//! [`Call::begin`], [`Call::on_response`] and then, by the status of the
//! response, [`Rejected::on_text`] or [`Accepted::on_json`].

use crate::client::Client;
use crate::error::{Error, ErrorView, Method};
use crate::request::Request;
use crate::text::text_view;
use vstd::prelude::*;
use vstd::string::StringExecFns;

verus! {

/// The status with which a 2xx answer that holds nothing is reported.
pub const NOT_FOUND: u16 = 404;

/// Whether `status` is in 200..=299.
pub open spec fn is_success(status: u16) -> bool {
    200 <= status < 300
}

/// The message of the error for a 2xx answer that holds nothing.
pub open spec fn not_found_message() -> Seq<char> {
    "Unable to find requested resource"@
}

/// The error for an answer outside 2xx whose body read as `text`; a body that
/// could not be read counts as empty.
pub open spec fn rejected(
    method: Method,
    path: Seq<char>,
    status: u16,
    text: Option<Seq<char>>,
) -> ErrorView {
    ErrorView::Status {
        code: status,
        method,
        path,
        message: match text {
            Some(body) => body,
            None => Seq::empty(),
        },
    }
}

/// The result for a 2xx answer whose body decoded as `decoded`.
///
/// A body that decodes to nothing (JSON `null`) is reported as a status error
/// with the code 404, as if the server had answered "not found": a caller
/// cannot tell the two apart.
pub open spec fn accepted<T>(
    method: Method,
    path: Seq<char>,
    decoded: Result<Option<T>, Seq<char>>,
) -> Result<T, ErrorView> {
    match decoded {
        Ok(Some(value)) => Ok(value),
        Ok(None) => Err(
            ErrorView::Status { code: NOT_FOUND, method, path, message: not_found_message() },
        ),
        Err(cause) => Err(ErrorView::Decode { cause, method, path }),
    }
}

/// Everything that the transport reports in the course of one call.
#[derive(Debug)]
pub struct Exchange<T> {
    /// The status of the response, or the reason why none arrived.
    pub sent: Result<u16, String>,
    /// The body read as text, `None` where it could not be read.
    pub text: Option<String>,
    /// The body decoded as JSON: a value, nothing (JSON `null`), or the
    /// reason why it is not the expected type.
    pub decoded: Result<Option<T>, String>,
}

/// The mathematical content of an [`Exchange`].
pub struct ExchangeView<T> {
    pub sent: Result<u16, Seq<char>>,
    pub text: Option<Seq<char>>,
    pub decoded: Result<Option<T>, Seq<char>>,
}

impl<T> View for Exchange<T> {
    type V = ExchangeView<T>;

    open spec fn view(&self) -> ExchangeView<T> {
        ExchangeView {
            sent: sent_view(self.sent),
            text: text_view(self.text),
            decoded: decoded_view(self.decoded),
        }
    }
}

/// The result of the call for `method` and `path` to which the transport
/// answers `exchange`. Only the reading of the body that the status asks for
/// takes part: the text outside 2xx, the decoding within.
pub open spec fn outcome<T>(method: Method, path: Seq<char>, exchange: ExchangeView<T>) -> Result<
    T,
    ErrorView,
> {
    match exchange.sent {
        Err(cause) => Err(ErrorView::Transport { cause }),
        Ok(status) => if is_success(status) {
            accepted(method, path, exchange.decoded)
        } else {
            Err(rejected(method, path, status, exchange.text))
        },
    }
}

/// The content of what the transport says of sending a request.
pub open spec fn sent_view(sent: Result<u16, String>) -> Result<u16, Seq<char>> {
    match sent {
        Ok(status) => Ok(status),
        Err(cause) => Err(cause@),
    }
}

/// The content of a decoding result.
pub open spec fn decoded_view<T>(decoded: Result<Option<T>, String>) -> Result<
    Option<T>,
    Seq<char>,
> {
    match decoded {
        Ok(value) => Ok(value),
        Err(cause) => Err(cause@),
    }
}

/// The content of a call's result.
pub open spec fn result_view<T>(result: Result<T, Error>) -> Result<T, ErrorView> {
    match result {
        Ok(value) => Ok(value),
        Err(error) => Err(error@),
    }
}

/// A call whose request is on its way.
#[derive(Debug)]
pub struct Call {
    method: Method,
    path: String,
}

/// A call that was answered outside 2xx: its body is to be read as text.
#[derive(Debug)]
pub struct Rejected {
    method: Method,
    path: String,
    status: u16,
}

/// A call that was answered with 2xx: its body is to be decoded as JSON.
#[derive(Debug)]
pub struct Accepted {
    method: Method,
    path: String,
}

/// What a call has come to once the transport has answered.
#[derive(Debug)]
pub enum Progress {
    /// No response arrived: the call has failed.
    Failed(Error),
    /// A response outside 2xx arrived.
    Rejected(Rejected),
    /// A 2xx response arrived.
    Accepted(Accepted),
}

impl Call {
    /// The method of the request of this call.
    pub closed spec fn method(&self) -> Method {
        self.method
    }

    /// The path of the request of this call.
    pub closed spec fn path(&self) -> Seq<char> {
        self.path@
    }

    /// Starts the call for `request`: keeps its method and its path for the
    /// errors to come.
    pub fn begin(request: &Request) -> (r: Call)
        ensures
            r.method() == request.method,
            r.path() == request.path@,
    {
        Call { method: request.method, path: request.path.clone() }
    }

    /// Takes what the transport says of sending the request: the status of
    /// the response, or the reason why there is none.
    pub fn on_response(self, sent: Result<u16, String>) -> (r: Progress)
        ensures
            match sent {
                Err(cause) => r matches Progress::Failed(error) && error@ == (ErrorView::Transport {
                    cause: cause@,
                }),
                Ok(status) => if is_success(status) {
                    r matches Progress::Accepted(next) && next.method() == self.method()
                        && next.path() == self.path()
                } else {
                    r matches Progress::Rejected(next) && next.method() == self.method()
                        && next.path() == self.path() && next.status() == status
                },
            },
    {
        match sent {
            Err(cause) => Progress::Failed(Error::Transport { cause }),
            Ok(status) => if 200 <= status && status < 300 {
                Progress::Accepted(Accepted { method: self.method, path: self.path })
            } else {
                Progress::Rejected(Rejected { method: self.method, path: self.path, status })
            },
        }
    }
}

impl Rejected {
    /// The method of the request of this call.
    pub closed spec fn method(&self) -> Method {
        self.method
    }

    /// The path of the request of this call.
    pub closed spec fn path(&self) -> Seq<char> {
        self.path@
    }

    /// The status with which the call was answered.
    pub closed spec fn status(&self) -> u16 {
        self.status
    }

    /// Ends the call with the body read as text, `None` where it could not
    /// be read.
    pub fn on_text(self, text: Option<String>) -> (error: Error)
        ensures
            error@ == rejected(self.method(), self.path(), self.status(), text_view(text)),
    {
        let message = match text {
            Some(body) => body,
            None => String::new(),
        };
        Error::Status { code: self.status, method: self.method, path: self.path, message }
    }
}

impl Accepted {
    /// The method of the request of this call.
    pub closed spec fn method(&self) -> Method {
        self.method
    }

    /// The path of the request of this call.
    pub closed spec fn path(&self) -> Seq<char> {
        self.path@
    }

    /// Ends the call with the body decoded as JSON: a value, nothing (JSON
    /// `null`), or the reason why it is not the expected type.
    pub fn on_json<T>(self, decoded: Result<Option<T>, String>) -> (r: Result<T, Error>)
        ensures
            result_view(r) == accepted(self.method(), self.path(), decoded_view(decoded)),
    {
        match decoded {
            Ok(Some(value)) => Ok(value),
            Ok(None) => Err(
                Error::Status {
                    code: NOT_FOUND,
                    method: self.method,
                    path: self.path,
                    message: String::from_str("Unable to find requested resource"),
                },
            ),
            Err(cause) => Err(Error::Decode { cause, method: self.method, path: self.path }),
        }
    }
}

impl Client {
    /// The result of the call for `request` to which the transport answers
    /// `exchange`: the decisions of a call, taken in their order. Neither the
    /// client nor the request is changed by it.
    pub fn execute<T>(&self, request: &Request, exchange: Exchange<T>) -> (r: Result<T, Error>)
        ensures
            result_view(r) == outcome(request.method, request.path@, exchange@),
    {
        match Call::begin(request).on_response(exchange.sent) {
            Progress::Failed(error) => Err(error),
            Progress::Rejected(call) => Err(call.on_text(exchange.text)),
            Progress::Accepted(call) => call.on_json(exchange.decoded),
        }
    }
}

} // verus!
