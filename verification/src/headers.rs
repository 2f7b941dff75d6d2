//! Header maps, kept in the `HeaderMap` that `reqwest` takes and hands on.

use reqwest::header::{HeaderMap, HeaderValue};
use vstd::prelude::*;

verus! {

/// `reqwest::header::HeaderMap`, the header map of the `http` crate, taken
/// as it is: nothing is known of a map but what [`header_entries`] says.
#[verifier::external_type_specification]
#[verifier::external_body]
#[verifier::reject_recursive_types(T)]
pub struct ExHeaderMap<T>(HeaderMap<T>);

/// `reqwest::header::HeaderValue`, the type of the values of a header map.
#[verifier::external_type_specification]
#[verifier::external_body]
pub struct ExHeaderValue(HeaderValue);

/// What a header map holds: under each name that occurs in it, written in
/// lower case, the values of that name in the order in which they were added,
/// each as its bytes.
pub uninterp spec fn header_entries(map: HeaderMap) -> Map<Seq<char>, Seq<Seq<u8>>>;

/// A number of names below which a header map takes one more without fail.
pub const ROOM: usize = 1024;

/// Whether `c` may stand in a header name: a letter, a digit, or one of the
/// marks of a token.
pub open spec fn is_name_char(c: char) -> bool {
    ||| 'a' <= c <= 'z'
    ||| 'A' <= c <= 'Z'
    ||| '0' <= c <= '9'
    ||| c == '!'
    ||| c == '#'
    ||| c == '$'
    ||| c == '%'
    ||| c == '&'
    ||| c == '\''
    ||| c == '*'
    ||| c == '+'
    ||| c == '-'
    ||| c == '.'
    ||| c == '^'
    ||| c == '_'
    ||| c == '`'
    ||| c == '|'
    ||| c == '~'
}

/// Whether `name` is a header name of at most 64 characters.
pub open spec fn is_header_name(name: Seq<char>) -> bool {
    &&& 1 <= name.len() <= 64
    &&& forall|i: int| 0 <= i < name.len() ==> is_name_char(#[trigger] name[i])
}

/// Whether `c` may stand in a header value: visible ASCII, a space or a tab.
pub open spec fn is_value_char(c: char) -> bool {
    ' ' <= c <= '~' || c == '\t'
}

/// Whether `value` is a header value written in text.
pub open spec fn is_header_value(value: Seq<char>) -> bool {
    forall|i: int| 0 <= i < value.len() ==> is_value_char(#[trigger] value[i])
}

/// A character of a header name in lower case.
pub open spec fn lower(c: char) -> char {
    if 'A' <= c <= 'Z' {
        ((c as u8) + 32) as char
    } else {
        c
    }
}

/// A header name in lower case, as a header map keeps it.
pub open spec fn lowered(name: Seq<char>) -> Seq<char> {
    name.map_values(|c: char| lower(c))
}

/// The bytes of a text of ASCII characters.
pub open spec fn ascii(text: Seq<char>) -> Seq<u8> {
    text.map_values(|c: char| c as u8)
}

/// Whether `entries` leaves room for one more name.
pub open spec fn has_room(entries: Map<Seq<char>, Seq<Seq<u8>>>) -> bool {
    entries.dom().finite() && entries.dom().len() < ROOM
}

/// An empty header map, by `HeaderMap::new`.
///
/// Trusted: the new map holds no name.
#[verifier::external_body]
pub(crate) fn no_headers() -> (r: HeaderMap)
    ensures
        header_entries(r) == (Map::<Seq<char>, Seq<Seq<u8>>>::empty()),
{
    HeaderMap::new()
}

/// Sets one header, by `HeaderMap::insert` with the value that
/// `HeaderValue::from_static` makes of `value`.
///
/// Trusted: afterwards `name`, in lower case, has `value` as its only value,
/// whatever it had before, and every other name has what it had. The
/// `requires` leaves out what either function panics on: a name that is no
/// token, a value with a character that is neither visible ASCII nor a tab,
/// and a map that has no room left. It asks for more than is needed: names
/// of at most 64 characters, and a map far below the 32,768 entries that the
/// map gives as its limit.
#[verifier::external_body]
pub(crate) fn set_header(map: &mut HeaderMap, name: &'static str, value: &'static str)
    requires
        is_header_name(name@),
        is_header_value(value@),
        has_room(header_entries(*old(map))),
    ensures
        header_entries(*final(map)) == header_entries(*old(map)).insert(
            lowered(name@),
            seq![ascii(value@)],
        ),
{
    map.insert(name, HeaderValue::from_static(value));
}

/// A copy of a header map, by its `Clone`.
///
/// Trusted: the copy holds what the map holds.
#[verifier::external_body]
pub(crate) fn copy_headers(map: &HeaderMap) -> (r: HeaderMap)
    ensures
        header_entries(r) == header_entries(*map),
{
    map.clone()
}

} // verus!
