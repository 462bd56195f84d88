//! The header set of a call, kept in the transport's own header map.

use reqwest::header::{HeaderMap, HeaderValue};
use vstd::prelude::*;

verus! {

/// `reqwest::header::HeaderMap`, the transport's header map.
#[verifier::external_type_specification]
#[verifier::external_body]
#[verifier::reject_recursive_types(T)]
pub struct ExHeaderMap<T>(reqwest::header::HeaderMap<T>);

/// `reqwest::header::HeaderValue`, a value that may stand in a header.
#[verifier::external_type_specification]
#[verifier::external_body]
pub struct ExHeaderValue(reqwest::header::HeaderValue);

/// The headers that a header map holds: each name with its value.
pub uninterp spec fn spec_headers(headers: HeaderMap<HeaderValue>) -> Map<Seq<char>, Seq<char>>;

/// The text that a header value holds.
pub uninterp spec fn spec_header_text(value: HeaderValue) -> Seq<char>;

/// Whether a character may stand in the value of a header: a tab, or
/// anything from the space upwards but the delete character.
pub open spec fn spec_header_char(c: char) -> bool {
    c == '\t' || (c >= ' ' && c != '\x7f')
}

/// Whether a text may stand as the value of a header.
pub open spec fn spec_header_safe(text: Seq<char>) -> bool {
    forall|i: int| 0 <= i < text.len() ==> spec_header_char(#[trigger] text[i])
}

/// The empty header set.
pub open spec fn spec_no_headers() -> Map<Seq<char>, Seq<char>> {
    Map::empty()
}

/// The names of the headers that this crate sets.
pub open spec fn spec_known_header(name: Seq<char>) -> bool {
    name == "authorization"@ || name == "content-type"@
}

/// Whether a header map holds none but the headers that this crate sets.
pub open spec fn spec_known_headers(headers: Map<Seq<char>, Seq<char>>) -> bool {
    forall|name: Seq<char>| headers.dom().contains(name) ==> spec_known_header(name)
}

/// `HeaderValue::from_str`: a value comes back exactly for a text that may
/// stand in a header, and it holds that text.
#[verifier::external_body]
pub(crate) fn header_value(text: &str) -> (value: Option<HeaderValue>)
    ensures
        value is Some <==> spec_header_safe(text@),
        value matches Some(v) ==> spec_header_text(v) == text@,
{
    HeaderValue::from_str(text).ok()
}

/// `HeaderMap::new`: a map without headers.
#[verifier::external_body]
pub(crate) fn headers_new() -> (headers: HeaderMap)
    ensures
        spec_headers(headers) == spec_no_headers(),
{
    HeaderMap::new()
}

/// `HeaderMap::insert`: the header `name` now holds `value`, whatever it
/// held before, and every other header is as it was. The name is one of
/// the lower-case names that this crate sets, and the map is far from full.
#[verifier::external_body]
pub(crate) fn headers_insert(headers: &mut HeaderMap, name: &'static str, value: HeaderValue)
    requires
        spec_known_header(name@),
        spec_known_headers(spec_headers(*old(headers))),
    ensures
        spec_headers(*final(headers)) == spec_headers(*old(headers)).insert(
            name@,
            spec_header_text(value),
        ),
{
    headers.insert(name, value);
}

} // verus!
