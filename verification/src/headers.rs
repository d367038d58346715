//! Header fields, kept in the `http` crate's own `HeaderMap`.
//!
//! The relay reads two fields of a request and writes a handful of fixed ones.
//! What a map holds is spoken of as a mathematical map from a field's name to
//! the values stored under it, first value first; the few operations the
//! relay needs are stated over that map.

use vstd::prelude::*;
use vstd::string::*;
use http::{HeaderMap, HeaderValue};
use crate::text::{ascii_bytes, is_printable, text_bytes};

verus! {

#[verifier::external_type_specification]
#[verifier::external_body]
#[verifier::reject_recursive_types(T)]
pub struct ExHeaderMap<T>(http::HeaderMap<T>);

#[verifier::external_type_specification]
#[verifier::external_body]
pub struct ExHeaderValue(http::HeaderValue);

/// The fields of a header map: each name that is present, in lower case, with
/// the values stored under it in the order in which they were added.
pub uninterp spec fn header_fields(headers: HeaderMap<HeaderValue>) -> Map<Seq<char>, Seq<Seq<u8>>>;

/// A map without fields.
pub open spec fn no_fields() -> Map<Seq<char>, Seq<Seq<u8>>> {
    Map::empty()
}

/// Whether `c` may stand in the name of one of the relay's own fields: a
/// lower-case letter, a digit or a hyphen.
pub open spec fn is_name_char(c: char) -> bool {
    ('a' <= c && c <= 'z') || ('0' <= c && c <= '9') || c == '-'
}

/// Whether `name` is a field name as the relay writes them: between one and
/// sixty-four characters, each a lower-case letter, a digit or a hyphen.
pub open spec fn is_field_name(name: Seq<char>) -> bool {
    &&& 1 <= name.len() <= 64
    &&& forall|i: int| 0 <= i < name.len() ==> is_name_char(#[trigger] name[i])
}

/// Whether `b` may stand in a field's value: a tab, or any byte from the
/// space on but for the delete character.
pub open spec fn is_value_byte(b: u8) -> bool {
    (b >= 32 && b != 127) || b == 9
}

/// Whether `value` can be the value of a field.
pub open spec fn is_field_value(value: Seq<u8>) -> bool {
    forall|i: int| 0 <= i < value.len() ==> is_value_byte(#[trigger] value[i])
}

/// The number of names below which a header map is sure to take another one.
pub const ROOM_FOR_NAMES: usize = 1024;

/// Whether `fields` are so few that a header map holding them is sure to
/// take another name.
pub open spec fn has_room(fields: Map<Seq<char>, Seq<Seq<u8>>>) -> bool {
    fields.dom().finite() && fields.dom().len() < ROOM_FOR_NAMES
}

/// `http::HeaderMap::new`: the new map has no fields.
#[verifier::external_body]
pub(crate) fn new_headers() -> (headers: HeaderMap<HeaderValue>)
    ensures
        header_fields(headers) == no_fields(),
{
    HeaderMap::new()
}

/// `http::HeaderMap::clear`: afterwards the map has no fields.
#[verifier::external_body]
pub(crate) fn clear_headers(headers: &mut HeaderMap<HeaderValue>)
    ensures
        header_fields(*final(headers)) == no_fields(),
{
    headers.clear()
}

/// `http::HeaderMap::get` with the name as a `&str`, and
/// `http::HeaderValue::as_bytes` on what it finds: the first value stored
/// under `name`, copied, or `None` where the map has no such field. A value
/// that comes out of a map is made of bytes that a value may hold, since
/// `HeaderValue` admits no others.
#[verifier::external_body]
pub(crate) fn first_value(headers: &HeaderMap<HeaderValue>, name: &str) -> (value: Option<Vec<u8>>)
    requires
        is_field_name(name@),
    ensures
        match value {
            Some(v) => header_fields(*headers).contains_key(name@) && header_fields(
                *headers,
            )[name@].len() > 0 && v@ == header_fields(*headers)[name@][0] && is_field_value(v@),
            None => !header_fields(*headers).contains_key(name@),
        },
{
    headers.get(name).map(|v| v.as_bytes().to_vec())
}

/// `http::HeaderMap::try_insert`, with `http::HeaderName::from_bytes` for the
/// name and `http::HeaderValue::from_bytes` for the value. Where it answers
/// `true`, `value` is the only value under `name` and every other field is as
/// before; where it answers `false`, the map refused and holds what it held.
/// A map refuses a name only once it holds thousands of them (6554 at the
/// least), so one with fewer than `ROOM_FOR_NAMES` never does.
#[verifier::external_body]
pub(crate) fn set_field(headers: &mut HeaderMap<HeaderValue>, name: &str, value: &[u8]) -> (stored:
    bool)
    requires
        is_field_name(name@),
        is_field_value(value@),
    ensures
        stored ==> header_fields(*final(headers)) == header_fields(*old(headers)).insert(
            name@,
            seq![value@],
        ),
        !stored ==> header_fields(*final(headers)) == header_fields(*old(headers)),
        has_room(header_fields(*old(headers))) ==> stored,
{
    match (http::HeaderName::from_bytes(name.as_bytes()), HeaderValue::from_bytes(value)) {
        (Ok(name), Ok(value)) => headers.try_insert(name, value).is_ok(),
        _ => false,
    }
}

/// `fields` with the one value `value`, a text, under `name`.
pub open spec fn with_field(
    fields: Map<Seq<char>, Seq<Seq<u8>>>,
    name: Seq<char>,
    value: Seq<char>,
) -> Map<Seq<char>, Seq<Seq<u8>>> {
    fields.insert(name, seq![text_bytes(value)])
}

/// A header map with one more name is finite, and has at most one name more.
pub(crate) proof fn lemma_room_after_field(
    fields: Map<Seq<char>, Seq<Seq<u8>>>,
    name: Seq<char>,
    values: Seq<Seq<u8>>,
)
    requires
        fields.dom().finite(),
    ensures
        fields.insert(name, values).dom().finite(),
        fields.insert(name, values).dom().len() <= fields.dom().len() + 1,
{
    assert(fields.insert(name, values).dom() =~= fields.dom().insert(name));
}

/// The names of the relay's own fields are field names, and their values are
/// printable.
pub(crate) proof fn lemma_own_fields()
    ensures
        is_field_name("access-control-allow-origin"@),
        is_field_name("access-control-allow-methods"@),
        is_field_name("access-control-allow-headers"@),
        is_field_name("host"@),
        is_field_name("content-type"@),
        is_field_name("content-length"@),
        is_printable("*"@),
        is_printable("CONNECT, GET, OPTIONS, POST"@),
        is_printable("Content-Type, Content-Length"@),
        is_printable("0.0.0.0"@),
        is_printable("message/ohttp-req"@),
{
    reveal_strlit("access-control-allow-origin");
    reveal_strlit("access-control-allow-methods");
    reveal_strlit("access-control-allow-headers");
    reveal_strlit("host");
    reveal_strlit("content-type");
    reveal_strlit("content-length");
    reveal_strlit("*");
    reveal_strlit("CONNECT, GET, OPTIONS, POST");
    reveal_strlit("Content-Type, Content-Length");
    reveal_strlit("0.0.0.0");
    reveal_strlit("message/ohttp-req");
}

/// The bytes of a printable text can be the value of a field.
pub(crate) proof fn lemma_printable_is_value(text: Seq<char>)
    requires
        is_printable(text),
    ensures
        is_field_value(text_bytes(text)),
{
    assert forall|i: int| 0 <= i < text_bytes(text).len() implies is_value_byte(
        #[trigger] text_bytes(text)[i],
    ) by {
        assert(' ' <= text[i] <= '~');
    }
}

/// Puts the printable text `value` under `name`, in place of what was there.
/// A map that is not too full takes the field, and is not too full for the
/// next one unless it has just reached the limit.
pub(crate) fn set_text_field(headers: &mut HeaderMap<HeaderValue>, name: &str, value: &str) -> (stored:
    bool)
    requires
        is_field_name(name@),
        is_printable(value@),
    ensures
        stored ==> header_fields(*final(headers)) == with_field(
            header_fields(*old(headers)),
            name@,
            value@,
        ),
        !stored ==> header_fields(*final(headers)) == header_fields(*old(headers)),
        has_room(header_fields(*old(headers))) ==> stored,
        has_room(header_fields(*old(headers))) && header_fields(*old(headers)).dom().len() + 1
            < ROOM_FOR_NAMES ==> has_room(header_fields(*final(headers))),
{
    let bytes = ascii_bytes(value);
    proof {
        lemma_printable_is_value(value@);
        if header_fields(*old(headers)).dom().finite() {
            lemma_room_after_field(header_fields(*old(headers)), name@, seq![bytes@]);
        }
    }
    set_field(headers, name, bytes.as_slice())
}

} // verus!
