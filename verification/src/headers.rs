//! Header maps of HTTP messages.

use crate::text;
use axum::http::{HeaderMap, HeaderValue};
use vstd::prelude::*;

verus! {

/// `http::HeaderMap`, as axum hands it out.
#[verifier::external_type_specification]
#[verifier::external_body]
#[verifier::reject_recursive_types(T)]
pub struct ExHeaderMap<T>(axum::http::HeaderMap<T>);

/// `http::HeaderValue`.
#[verifier::external_type_specification]
#[verifier::external_body]
pub struct ExHeaderValue(axum::http::HeaderValue);

/// What a header map holds: under each name, in lower case, the bytes of its
/// values in the order in which they were added.
pub uninterp spec fn header_values(headers: HeaderMap) -> Map<Seq<char>, Seq<Seq<u8>>>;

/// The bytes of a header value.
pub uninterp spec fn value_bytes(value: HeaderValue) -> Seq<u8>;

/// A header name as the library writes them: lower-case letters and dashes.
pub open spec fn is_name(name: Seq<char>) -> bool {
    &&& 0 < name.len() <= 64
    &&& forall|i: int| 0 <= i < name.len() ==> 'a' <= #[trigger] name[i] <= 'z' || name[i] == '-'
}

/// The bytes that a header value may hold where it is read as text: visible
/// ASCII, the space and the tab.
pub open spec fn is_visible(b: u8) -> bool {
    32 <= b < 127 || b == 9
}

/// True when every byte can be read as text.
pub open spec fn readable(bytes: Seq<u8>) -> bool {
    forall|i: int| 0 <= i < bytes.len() ==> is_visible(#[trigger] bytes[i])
}

/// ASCII bytes as characters.
pub open spec fn ascii_text(bytes: Seq<u8>) -> Seq<char> {
    bytes.map_values(|b: u8| b as char)
}

/// The first value of a header as text, where it has one that can be read so.
pub open spec fn first_text(headers: HeaderMap, name: Seq<char>) -> Option<Seq<char>> {
    let all = header_values(headers);
    if all.dom().contains(name) && all[name].len() > 0 && readable(all[name][0]) {
        Some(ascii_text(all[name][0]))
    } else {
        None
    }
}

/// `HeaderMap::get`: the first value under the name, if there is one.
#[verifier::external_body]
fn first_value<'a>(headers: &'a HeaderMap, name: &str) -> (r: Option<&'a HeaderValue>)
    requires
        is_name(name@),
    ensures
        match r {
            Some(v) => header_values(*headers).dom().contains(name@) && header_values(
                *headers,
            )[name@].len() > 0 && value_bytes(*v) == header_values(*headers)[name@][0],
            None => !header_values(*headers).dom().contains(name@),
        },
{
    headers.get(name)
}

/// `HeaderValue::to_str`: the value as text, where every byte of it is visible
/// ASCII, a space or a tab.
#[verifier::external_body]
fn value_text(value: &HeaderValue) -> (r: Option<&str>)
    ensures
        r is Some == readable(value_bytes(*value)),
        r is Some ==> r->0@ == ascii_text(value_bytes(*value)),
{
    value.to_str().ok()
}

/// Reads the first value of a header as text.
pub fn header_text<'a>(headers: &'a HeaderMap, name: &str) -> (r: Option<&'a str>)
    requires
        is_name(name@),
    ensures
        text::opt_str_view(r) == first_text(*headers, name@),
{
    match first_value(headers, name) {
        Some(v) => value_text(v),
        None => None,
    }
}

/// A map with fewer header names always takes one more. A larger one may refuse to
/// grow past a limit, which it reaches at this count at the earliest.
pub const MAX_NAMES: usize = 6_500;

/// ASCII characters as bytes.
pub open spec fn ascii_bytes(s: Seq<char>) -> Seq<u8> {
    s.map_values(|c: char| c as u8)
}

/// A text that a header value may hold.
pub open spec fn is_value(s: Seq<char>) -> bool {
    forall|i: int| 0 <= i < s.len() ==> 32 <= (#[trigger] s[i]) as int && (s[i] as int) < 127
}

/// The headers with a value under a name that had none.
pub open spec fn with_default(
    all: Map<Seq<char>, Seq<Seq<u8>>>,
    name: Seq<char>,
    value: Seq<char>,
) -> Map<Seq<char>, Seq<Seq<u8>>> {
    if all.dom().contains(name) {
        all
    } else {
        all.insert(name, seq![ascii_bytes(value)])
    }
}

/// `HeaderMap::try_entry` and `Entry::or_try_insert` with
/// `HeaderValue::from_static`: the value goes under the name where the map has none
/// under it; otherwise the map stays as it is. Either way it holds at most one name
/// more. `false` comes back where the map refuses to grow, and it holds what it
/// held. Below [`MAX_NAMES`] names it never refuses. Which larger maps refuse is not
/// said: that depends on how they are laid out.
#[verifier::external_body]
pub(crate) fn or_insert(headers: &mut HeaderMap, name: &'static str, value: &'static str) -> (r:
    bool)
    requires
        is_name(name@),
        is_value(value@),
    ensures
        header_values(*final(headers)) == if r {
            with_default(header_values(*old(headers)), name@, value@)
        } else {
            header_values(*old(headers))
        },
        header_values(*final(headers)).dom().len() <= header_values(*old(headers)).dom().len() + 1,
        header_values(*old(headers)).dom().len() < MAX_NAMES ==> r,
{
    match headers.try_entry(name) {
        Ok(entry) => entry.or_try_insert(HeaderValue::from_static(value)).is_ok(),
        Err(_) => false,
    }
}

} // verus!
