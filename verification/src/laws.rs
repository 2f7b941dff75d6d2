//! What holds of every call, proved from the contracts of its steps.

use crate::call::{is_success, not_found_message, outcome, ExchangeView, NOT_FOUND};
use crate::error::{ErrorView, Method};
use crate::query::present;
use crate::request::{overridden, RequestView};
use crate::text::{decimal, escaped, escaped_byte, hex, is_unreserved};
use vstd::prelude::*;
use vstd::utf8::{encode_utf8, is_ascii_chars, is_ascii_chars_encode_utf8};

verus! {

/// A 2xx answer whose body decodes to a value yields that value, unchanged.
pub proof fn value_is_returned_unchanged<T>(
    method: Method,
    path: Seq<char>,
    status: u16,
    text: Option<Seq<char>>,
    value: T,
)
    requires
        is_success(status),
    ensures
        outcome(method, path, ExchangeView { sent: Ok(status), text, decoded: Ok(Some(value)) })
            == Ok::<T, ErrorView>(value),
{
}

/// A 2xx answer whose body is JSON `null` is reported as not found, with the
/// status 404 and a fixed message, whatever the path of the request.
pub proof fn nothing_is_not_found<T>(
    method: Method,
    path: Seq<char>,
    status: u16,
    text: Option<Seq<char>>,
)
    requires
        is_success(status),
    ensures
        outcome::<T>(method, path, ExchangeView { sent: Ok(status), text, decoded: Ok(None) })
            == Err::<T, ErrorView>(
            ErrorView::Status { code: 404, method, path, message: not_found_message() },
        ),
{
}

/// An answer outside 2xx is reported with its exact status and its body text
/// as it is; the message is empty where the body is empty or cannot be read.
pub proof fn rejection_carries_status_and_body<T>(
    method: Method,
    path: Seq<char>,
    status: u16,
    text: Option<Seq<char>>,
    decoded: Result<Option<T>, Seq<char>>,
)
    requires
        !is_success(status),
    ensures
        outcome(method, path, ExchangeView { sent: Ok(status), text, decoded }) == Err::<
            T,
            ErrorView,
        >(
            ErrorView::Status {
                code: status,
                method,
                path,
                message: match text {
                    Some(body) => body,
                    None => Seq::empty(),
                },
            },
        ),
{
}

/// A 2xx answer whose body is not the expected type is a decoding error that
/// carries the cause: no value comes out of it.
pub proof fn undecodable_is_an_error<T>(
    method: Method,
    path: Seq<char>,
    status: u16,
    text: Option<Seq<char>>,
    cause: Seq<char>,
)
    requires
        is_success(status),
    ensures
        outcome::<T>(method, path, ExchangeView { sent: Ok(status), text, decoded: Err(cause) })
            == Err::<T, ErrorView>(ErrorView::Decode { cause, method, path }),
{
}

/// Where no response arrives the call fails with the transport's reason,
/// whatever else is reported.
pub proof fn no_response_is_a_transport_error<T>(
    method: Method,
    path: Seq<char>,
    cause: Seq<char>,
    text: Option<Seq<char>>,
    decoded: Result<Option<T>, Seq<char>>,
)
    ensures
        outcome(method, path, ExchangeView { sent: Err(cause), text, decoded }) == Err::<
            T,
            ErrorView,
        >(ErrorView::Transport { cause }),
{
}

/// A call succeeds with a value exactly where a 2xx answer decoded to that
/// value: there is no success with an empty or a default value.
pub proof fn success_is_a_decoded_value<T>(
    method: Method,
    path: Seq<char>,
    exchange: ExchangeView<T>,
    value: T,
)
    ensures
        outcome(method, path, exchange) == Ok::<T, ErrorView>(value) <==> {
            &&& exchange.sent matches Ok(status)
            &&& is_success(status)
            &&& exchange.decoded == Ok::<Option<T>, Seq<char>>(Some(value))
        },
{
}

/// A call either succeeds with a value or fails with exactly one error whose
/// kind is fixed by the answer: transport, status or decoding, and never a
/// configuration error.
pub proof fn failure_has_one_kind<T>(method: Method, path: Seq<char>, exchange: ExchangeView<T>)
    ensures
        match outcome(method, path, exchange) {
            Ok(_) => exchange.sent is Ok && exchange.decoded is Ok,
            Err(ErrorView::Transport { .. }) => exchange.sent is Err,
            Err(ErrorView::Status { code, .. }) => exchange.sent matches Ok(status) && (if is_success(
                status,
            ) {
                code == NOT_FOUND && exchange.decoded == Ok::<Option<T>, Seq<char>>(None)
            } else {
                code == status
            }),
            Err(ErrorView::Decode { .. }) => exchange.sent matches Ok(status) && is_success(status)
                && exchange.decoded is Err,
            Err(ErrorView::Configuration { .. }) => false,
        },
{
}

/// The same call answered in the same way has the same result: a call keeps
/// no memory of earlier calls.
pub proof fn repeated_call_agrees<T>(
    method: Method,
    path: Seq<char>,
    first: ExchangeView<T>,
    second: ExchangeView<T>,
)
    requires
        first == second,
    ensures
        outcome(method, path, first) == outcome(method, path, second),
{
}

/// A header override takes the place of all the headers of a request: none
/// of them is kept, and nothing else of the request changes. Without an
/// override the request is sent as it is.
pub proof fn override_replaces_all_headers(
    request: RequestView,
    headers: Map<Seq<char>, Seq<Seq<u8>>>,
)
    ensures
        overridden(request, Some(headers)).headers == headers,
        overridden(request, Some(headers)).method == request.method,
        overridden(request, Some(headers)).url == request.url,
        overridden(request, Some(headers)).path == request.path,
        overridden(request, Some(headers)).query == request.query,
        overridden(request, None) == request,
{
}

/// A field without a value adds nothing to the query of a filter; a field
/// with a value adds one parameter at the end.
pub proof fn absent_field_is_omitted(
    fields: Seq<(Seq<char>, Option<Seq<char>>)>,
    name: Seq<char>,
    value: Seq<char>,
)
    ensures
        present(fields.push((name, None))) == present(fields),
        present(fields.push((name, Some(value)))) == present(fields).push((name, value)),
{
    assert(fields.push((name, None::<Seq<char>>)).drop_last() =~= fields);
    assert(fields.push((name, Some(value))).drop_last() =~= fields);
    assert(present(fields.push((name, Some(value)))) =~= present(fields).push((name, value)));
}

/// Whether `c` is a character that leaves a path segment whole: an
/// unreserved character or the `%` of an escape.
pub open spec fn is_segment_char(c: char) -> bool {
    ||| 'A' <= c <= 'Z'
    ||| 'a' <= c <= 'z'
    ||| '0' <= c <= '9'
    ||| c == '-'
    ||| c == '.'
    ||| c == '_'
    ||| c == '~'
    ||| c == '%'
}

/// An id written into a path holds decimal digits and nothing else.
pub proof fn decimal_holds_digits(n: nat)
    ensures
        decimal(n).len() >= 1,
        forall|i: int| 0 <= i < decimal(n).len() ==> '0' <= #[trigger] decimal(n)[i] <= '9',
    decreases n,
{
    if n >= 10 {
        decimal_holds_digits(n / 10);
    }
}

/// An escaped segment holds no character that ends a path segment or starts
/// a query or a fragment.
pub proof fn escaped_holds_segment_chars(bytes: Seq<u8>)
    ensures
        forall|i: int|
            0 <= i < escaped(bytes).len() ==> is_segment_char(#[trigger] escaped(bytes)[i]),
    decreases bytes.len(),
{
    if bytes.len() > 0 {
        escaped_holds_segment_chars(bytes.drop_last());
        let earlier = escaped(bytes.drop_last());
        let last = escaped_byte(bytes.last());
        assert forall|k: int| 0 <= k < last.len() implies is_segment_char(#[trigger] last[k]) by {
            if !is_unreserved(bytes.last()) {
                assert(is_segment_char(hex(bytes.last() as nat / 16)));
                assert(is_segment_char(hex(bytes.last() as nat % 16)));
            }
        }
        assert forall|i: int| 0 <= i < escaped(bytes).len() implies is_segment_char(
            #[trigger] escaped(bytes)[i],
        ) by {
            if i < earlier.len() {
                assert(escaped(bytes)[i] == earlier[i]);
            } else {
                assert(escaped(bytes)[i] == last[i - earlier.len()]);
            }
        }
    }
}

/// Escaping leaves a segment of unreserved characters as it is.
pub proof fn escaped_keeps_unreserved(bytes: Seq<u8>)
    requires
        forall|i: int| 0 <= i < bytes.len() ==> is_unreserved(#[trigger] bytes[i]),
    ensures
        escaped(bytes) == bytes.map_values(|b: u8| b as char),
    decreases bytes.len(),
{
    if bytes.len() > 0 {
        escaped_keeps_unreserved(bytes.drop_last());
        assert(bytes.drop_last().map_values(|b: u8| b as char).push(bytes.last() as char)
            =~= bytes.map_values(|b: u8| b as char));
    }
    assert(escaped(bytes) =~= bytes.map_values(|b: u8| b as char));
}

/// Whether `c` is an unreserved character of a URL: a letter, a digit, `-`,
/// `.`, `_` or `~`.
pub open spec fn is_plain_char(c: char) -> bool {
    is_segment_char(c) && c != '%'
}

/// A slug of unreserved characters is written into the path as it is.
pub proof fn plain_slug_is_kept(slug: Seq<char>)
    requires
        forall|i: int| 0 <= i < slug.len() ==> is_plain_char(#[trigger] slug[i]),
    ensures
        escaped(encode_utf8(slug)) == slug,
{
    assert(is_ascii_chars(slug)) by {
        assert forall|i: int| 0 <= i < slug.len() implies '\0' <= #[trigger] slug[i]
            <= '\u{7f}' by {
            assert(is_plain_char(slug[i]));
        }
    }
    is_ascii_chars_encode_utf8(slug);
    let bytes = encode_utf8(slug);
    assert forall|i: int| 0 <= i < bytes.len() implies is_unreserved(#[trigger] bytes[i]) by {
        assert(is_plain_char(slug[i]));
        assert(bytes[i] == slug[i] as u8);
    }
    escaped_keeps_unreserved(bytes);
    assert(bytes.map_values(|b: u8| b as char) =~= slug) by {
        assert forall|i: int| 0 <= i < slug.len() implies bytes.map_values(|b: u8| b as char)[i]
            == slug[i] by {
            assert(is_plain_char(slug[i]));
            assert(bytes[i] == slug[i] as u8);
        }
    }
}

/// Whatever a slug holds, what is written into the path for it holds no
/// character that separates segments or starts a query or a fragment.
pub proof fn slug_holds_no_separator(slug: Seq<char>)
    ensures
        forall|i: int|
            0 <= i < escaped(encode_utf8(slug)).len() ==> {
                let c = #[trigger] escaped(encode_utf8(slug))[i];
                is_segment_char(c) && c != '/' && c != '?' && c != '#'
            },
{
    escaped_holds_segment_chars(encode_utf8(slug));
}

} // verus!
